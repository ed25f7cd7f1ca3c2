//! Building blocks for producing text: runs of spaces, decimal numbers,
//! joined lists, and comparison of strings by their characters.

use vstd::prelude::*;
use vstd::string::*;

verus! {

/// `String::push` of the standard library appends the given character to the
/// end of the string and changes nothing else.
pub assume_specification[ String::push ](s: &mut String, c: char)
    ensures
        final(s)@ == old(s)@.push(c),
;

/// A run of `n` space characters.
pub open spec fn spaces(n: nat) -> Seq<char> {
    Seq::new(n, |i: int| ' ')
}

/// The character of the decimal digit `d`.
pub open spec fn digit_char(d: nat) -> char
    recommends
        d < 10,
{
    (d + 48) as char
}

/// The decimal digits of `n`, most significant first, with no leading zero
/// except for zero itself.
pub open spec fn decimal_nat(n: nat) -> Seq<char>
    decreases n,
{
    if n < 10 {
        seq![digit_char(n)]
    } else {
        decimal_nat(n / 10).push(digit_char(n % 10))
    }
}

/// The base 10 text of an integer: a minus sign for negative numbers, then
/// the digits of the magnitude.
pub open spec fn decimal(n: int) -> Seq<char> {
    if n < 0 {
        seq!['-'] + decimal_nat((-n) as nat)
    } else {
        decimal_nat(n as nat)
    }
}

/// Appends `n` spaces to `out`.
pub fn push_spaces(out: &mut String, n: usize)
    ensures
        final(out)@ == old(out)@ + spaces(n as nat),
{
    let mut i: usize = 0;
    while i < n
        invariant
            i <= n,
            out@ == old(out)@ + spaces(i as nat),
        decreases n - i,
    {
        out.push(' ');
        i = i + 1;
        assert(out@ =~= old(out)@ + spaces(i as nat));
    }
}

/// Appends the decimal digits of `n` to `out`.
pub fn push_decimal(out: &mut String, n: u64)
    ensures
        final(out)@ == old(out)@ + decimal_nat(n as nat),
{
    let mut rest: u64 = n;
    let mut low: Vec<char> = Vec::new();
    while rest >= 10
        invariant
            decimal_nat(n as nat) == decimal_nat(rest as nat) + low@.reverse(),
        decreases rest,
    {
        let d: u8 = (rest % 10) as u8;
        let ghost before = low@;
        low.push((d + 48) as char);
        assert(low@.reverse() =~= seq![digit_char((rest % 10) as nat)] + before.reverse());
        assert(decimal_nat(rest as nat) + before.reverse() =~= decimal_nat((rest / 10) as nat)
            + low@.reverse());
        rest = rest / 10;
    }
    let d: u8 = rest as u8;
    out.push((d + 48) as char);
    let mut i: usize = low.len();
    while i > 0
        invariant
            i <= low.len(),
            out@ == old(out)@ + decimal_nat(rest as nat) + low@.reverse().take(low.len() - i),
        decreases i,
    {
        i = i - 1;
        out.push(low[i]);
        assert(low@.reverse().take(low.len() - i) =~= low@.reverse().take(low.len() - (i + 1)).push(
            low@[i as int],
        ));
    }
    assert(low@.reverse().take(low.len() as int) =~= low@.reverse());
}

/// The base 10 text of an unsigned integer.
pub fn unsigned_text(n: u64) -> (r: String)
    ensures
        r@ == decimal(n as int),
{
    let mut out = String::new();
    push_decimal(&mut out, n);
    out
}

/// The base 10 text of a signed integer.
pub fn signed_text(n: i64) -> (r: String)
    ensures
        r@ == decimal(n as int),
{
    let mut out = String::new();
    if n < 0 {
        out.push('-');
        let magnitude: u64 = (-(n as i128)) as u64;
        push_decimal(&mut out, magnitude);
    } else {
        push_decimal(&mut out, n as u64);
    }
    out
}

/// Whether two strings hold the same characters.
pub fn same_text(a: &str, b: &str) -> (r: bool)
    ensures
        r == (a@ == b@),
{
    a.to_owned() == b.to_owned()
}

/// An owned string made of `head` followed by `tail`.
pub fn joined(head: &str, tail: &str) -> (r: String)
    ensures
        r@ == head@ + tail@,
{
    let mut out = head.to_owned();
    out.append(tail);
    out
}

/// A letter from `a` to `z` in upper case; any other character as it is.
pub open spec fn upper_char(c: char) -> char {
    if 'a' <= c && c <= 'z' {
        ((c as u8) - 32) as char
    } else {
        c
    }
}

/// A text with its letters from `a` to `z` in upper case.
pub open spec fn upper_text(text: Seq<char>) -> Seq<char> {
    text.map_values(|c: char| upper_char(c))
}

/// The text with its letters from `a` to `z` in upper case.
pub fn to_upper(text: &str) -> (r: String)
    ensures
        r@ == upper_text(text@),
{
    let mut out = String::new();
    for c in it: text.chars()
        invariant
            it.seq() == text@,
            out@ == upper_text(text@.take(it.index())),
    {
        assert(text@.take(it.index() + 1) =~= text@.take(it.index()).push(c));
        if 'a' <= c && c <= 'z' {
            out.push(((c as u8) - 32) as char);
        } else {
            out.push(c);
        }
        assert(out@ =~= upper_text(text@.take(it.index() + 1)));
    }
    assert(text@.take(text@.len() as int) =~= text@);
    out
}

/// The characters of the strings.
pub open spec fn texts_of(parts: Seq<String>) -> Seq<Seq<char>> {
    parts.map_values(|s: String| s@)
}

/// The parts in order with the separator between each two of them.
pub open spec fn joined_texts(parts: Seq<Seq<char>>, separator: Seq<char>) -> Seq<char>
    decreases parts.len(),
{
    if parts.len() == 0 {
        Seq::empty()
    } else if parts.len() == 1 {
        parts[0]
    } else {
        joined_texts(parts.drop_last(), separator) + separator + parts.last()
    }
}

/// The parts in order with the separator between each two of them.
pub fn join(parts: &Vec<String>, separator: &str) -> (r: String)
    ensures
        r@ == joined_texts(texts_of(parts@), separator@),
{
    let mut out = String::new();
    let ghost all = texts_of(parts@);
    let mut i: usize = 0;
    assert(all.take(0) =~= Seq::empty());
    while i < parts.len()
        invariant
            i <= parts@.len(),
            all == texts_of(parts@),
            out@ == joined_texts(all.take(i as int), separator@),
        decreases parts@.len() - i,
    {
        proof {
            assert(all.take(i + 1).drop_last() =~= all.take(i as int));
            assert(all.take(i + 1).last() == parts@[i as int]@);
            if i == 0 {
                assert(out@ + parts@[i as int]@ =~= parts@[i as int]@);
            }
        }
        if i > 0 {
            out.append(separator);
        }
        out.append(parts[i].as_str());
        i = i + 1;
    }
    assert(all.take(parts@.len() as int) =~= all);
    out
}

/// The characters of a text from the one at `skip` on, `count` of them at
/// most: fewer where the text ends before.
pub open spec fn window(text: Seq<char>, skip: nat, count: nat) -> Seq<char> {
    let start = if skip <= text.len() {
        skip
    } else {
        text.len()
    };
    let end = if start + count <= text.len() {
        start + count
    } else {
        text.len()
    };
    text.subrange(start as int, end as int)
}

/// The text without its first `skip` characters, cut after `count`
/// characters.
pub fn chars_window(text: &str, skip: usize, count: usize) -> (r: String)
    ensures
        r@ == window(text@, skip as nat, count as nat),
{
    let len = text.unicode_len();
    let start = if skip <= len {
        skip
    } else {
        len
    };
    let end = if count <= len - start {
        start + count
    } else {
        len
    };
    text.substring_char(start, end).to_owned()
}

} // verus!
