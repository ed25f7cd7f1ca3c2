//! The response token of the router's challenge-response login.
//!
//! The router hands out a challenge. The client answers with the challenge,
//! a hyphen, and the MD5 sum of `challenge-password` in the router's own
//! byte encoding: UTF-16, little endian, with every code unit above 255
//! replaced by a full stop.

use md5::Digest;
use vstd::prelude::*;
use vstd::string::*;

verus! {

/// The MD5 digest of a byte sequence: what `Md5::digest` returns for it.
pub uninterp spec fn md5_digest(data: Seq<u8>) -> Seq<u8>;

/// `Md5::digest` of the `md-5` crate: feeds the bytes to a fresh hasher and
/// returns what it finalizes to, the 16 bytes of the MD5 digest.
#[verifier::external_body]
fn md5_sum(data: &[u8]) -> (sum: Vec<u8>)
    ensures
        sum@ == md5_digest(data@),
        sum@.len() == 16,
{
    md5::Md5::digest(data).to_vec()
}

/// The UTF-16 code units of one character: itself below 0x10000, else a
/// high and a low surrogate.
pub open spec fn utf16_units(c: char) -> Seq<u16> {
    let v = c as u32;
    if v < 0x10000 {
        seq![v as u16]
    } else {
        seq![
            (0xD800 + ((v - 0x10000) as u32 >> 10)) as u16,
            (0xDC00 + ((v - 0x10000) as u32 & 0x3FF)) as u16,
        ]
    }
}

/// The UTF-16 encoding of a text.
pub open spec fn utf16(text: Seq<char>) -> Seq<u16>
    decreases text.len(),
{
    if text.len() == 0 {
        Seq::empty()
    } else {
        utf16(text.drop_last()) + utf16_units(text.last())
    }
}

/// A code unit as the router reads it: units above 255 count as a full stop.
pub open spec fn fold_unit(unit: u16) -> u16 {
    if unit > 255 {
        0x2E
    } else {
        unit
    }
}

/// The two bytes of a code unit, low byte first.
pub open spec fn unit_bytes(unit: u16) -> Seq<u8> {
    seq![(unit % 256) as u8, (unit / 256) as u8]
}

/// The folded code units as bytes, each unit low byte first.
pub open spec fn folded_bytes(units: Seq<u16>) -> Seq<u8>
    decreases units.len(),
{
    if units.len() == 0 {
        Seq::empty()
    } else {
        folded_bytes(units.drop_last()) + unit_bytes(fold_unit(units.last()))
    }
}

/// The bytes that the router hashes for a text.
pub open spec fn legacy_bytes(text: Seq<char>) -> Seq<u8> {
    folded_bytes(utf16(text))
}

/// The character of a hexadecimal digit, in lower case.
pub open spec fn hex_digit(d: nat) -> char
    recommends
        d < 16,
{
    if d < 10 {
        (d + 48) as char
    } else {
        (d + 87) as char
    }
}

/// Two lower case hexadecimal digits for each byte, with nothing between.
pub open spec fn hex(bytes: Seq<u8>) -> Seq<char>
    decreases bytes.len(),
{
    if bytes.len() == 0 {
        Seq::empty()
    } else {
        hex(bytes.drop_last()).push(hex_digit((bytes.last() / 16) as nat)).push(
            hex_digit((bytes.last() % 16) as nat),
        )
    }
}

/// The text `challenge-password` that is hashed.
pub open spec fn secret_text(challenge: Seq<char>, password: Seq<char>) -> Seq<char> {
    challenge.push('-') + password
}

/// The response for a challenge and the digest of the secret text: the
/// challenge, a hyphen, and the digest in hexadecimal.
pub open spec fn response_of_digest(challenge: Seq<char>, digest: Seq<u8>) -> Seq<char> {
    challenge.push('-') + hex(digest)
}

/// The response that the router expects for a challenge and a password.
pub open spec fn response_text(challenge: Seq<char>, password: Seq<char>) -> Seq<char> {
    response_of_digest(challenge, md5_digest(legacy_bytes(secret_text(challenge, password))))
}

proof fn lemma_folded_bytes_concat(a: Seq<u16>, b: Seq<u16>)
    ensures
        folded_bytes(a + b) == folded_bytes(a) + folded_bytes(b),
    decreases b.len(),
{
    if b.len() == 0 {
        assert(a + b =~= a);
        assert(folded_bytes(a) + folded_bytes(b) =~= folded_bytes(a));
    } else {
        assert((a + b).drop_last() =~= a + b.drop_last());
        assert((a + b).last() == b.last());
        lemma_folded_bytes_concat(a, b.drop_last());
        assert(folded_bytes(a + b) =~= folded_bytes(a) + folded_bytes(b));
    }
}

proof fn lemma_utf16_concat(a: Seq<char>, b: Seq<char>)
    ensures
        utf16(a + b) == utf16(a) + utf16(b),
    decreases b.len(),
{
    if b.len() == 0 {
        assert(a + b =~= a);
        assert(utf16(a) + utf16(b) =~= utf16(a));
    } else {
        assert((a + b).drop_last() =~= a + b.drop_last());
        assert((a + b).last() == b.last());
        lemma_utf16_concat(a, b.drop_last());
        assert(utf16(a + b) =~= utf16(a) + utf16(b));
    }
}

/// The bytes of a text made of two parts are the bytes of the first part
/// followed by the bytes of the second.
pub proof fn lemma_legacy_bytes_concat(a: Seq<char>, b: Seq<char>)
    ensures
        legacy_bytes(a + b) == legacy_bytes(a) + legacy_bytes(b),
{
    lemma_utf16_concat(a, b);
    lemma_folded_bytes_concat(utf16(a), utf16(b));
}

/// What the router takes a character for: itself up to 255, one full stop
/// for any other character of a single code unit, two full stops for a
/// character that UTF-16 writes as a surrogate pair.
pub open spec fn folded_char(c: char) -> Seq<char> {
    if c as u32 <= 255 {
        seq![c]
    } else if (c as u32) < 0x10000 {
        seq!['.']
    } else {
        seq!['.', '.']
    }
}

/// A text with every character replaced by what the router takes it for.
pub open spec fn folded_text(text: Seq<char>) -> Seq<char>
    decreases text.len(),
{
    if text.len() == 0 {
        Seq::empty()
    } else {
        folded_text(text.drop_last()) + folded_char(text.last())
    }
}

/// A text with every character above 255 replaced by a full stop.
pub open spec fn dotted_text(text: Seq<char>) -> Seq<char> {
    text.map_values(
        |c: char|
            if c as u32 > 255 {
                '.'
            } else {
                c
            },
    )
}

/// No character of the text needs a surrogate pair in UTF-16.
pub open spec fn single_units(text: Seq<char>) -> bool {
    forall|i: int| 0 <= i < text.len() ==> (#[trigger] text[i]) as u32 <= 0xFFFF
}

proof fn lemma_one_unit(unit: u16)
    ensures
        folded_bytes(seq![unit]) == unit_bytes(fold_unit(unit)),
{
    assert(seq![unit].drop_last() =~= Seq::<u16>::empty());
    assert(folded_bytes(seq![unit].drop_last()) =~= Seq::<u8>::empty());
    assert(folded_bytes(seq![unit]) =~= unit_bytes(fold_unit(unit)));
}

proof fn lemma_one_char(c: char)
    ensures
        utf16(seq![c]) == utf16_units(c),
{
    assert(seq![c].drop_last() =~= Seq::<char>::empty());
    assert(utf16(seq![c].drop_last()) =~= Seq::<u16>::empty());
    assert(utf16(seq![c]) =~= utf16_units(c));
}

proof fn lemma_folded_char_bytes(c: char)
    ensures
        legacy_bytes(folded_char(c)) == folded_bytes(utf16_units(c)),
{
    let v = c as u32;
    lemma_one_char('.');
    lemma_one_unit(0x2E);
    assert(utf16_units('.') =~= seq![0x2Eu16]);
    if v <= 255 {
        lemma_one_char(c);
    } else if v < 0x10000 {
        lemma_one_unit(v as u16);
        assert(utf16_units(c) =~= seq![v as u16]);
    } else {
        let offset = (v - 0x10000) as u32;
        assert(offset >> 10 <= 0x3FF && offset & 0x3FF <= 0x3FF) by (bit_vector)
            requires
                offset < 0x100000,
        ;
        let high = (0xD800 + (offset >> 10)) as u16;
        let low = (0xDC00 + (offset & 0x3FF)) as u16;
        assert(utf16_units(c) =~= seq![high] + seq![low]);
        lemma_folded_bytes_concat(seq![high], seq![low]);
        lemma_one_unit(high);
        lemma_one_unit(low);
        assert(seq!['.', '.'] =~= seq!['.'] + seq!['.']);
        lemma_legacy_bytes_concat(seq!['.'], seq!['.']);
    }
}

/// The router hashes a text and its folded form to the same bytes.
pub proof fn lemma_fold_keeps_bytes(text: Seq<char>)
    ensures
        legacy_bytes(folded_text(text)) == legacy_bytes(text),
    decreases text.len(),
{
    if text.len() > 0 {
        lemma_fold_keeps_bytes(text.drop_last());
        lemma_legacy_bytes_concat(folded_text(text.drop_last()), folded_char(text.last()));
        lemma_folded_char_bytes(text.last());
        lemma_folded_bytes_concat(utf16(text.drop_last()), utf16_units(text.last()));
    }
}

/// Folding the password changes nothing of the response: a character above
/// 255 counts as a full stop, or as two where UTF-16 needs a surrogate pair
/// for it.
pub proof fn lemma_response_folds_password(challenge: Seq<char>, password: Seq<char>)
    ensures
        response_text(challenge, folded_text(password)) == response_text(challenge, password),
{
    lemma_fold_keeps_bytes(password);
    lemma_legacy_bytes_concat(challenge.push('-'), password);
    lemma_legacy_bytes_concat(challenge.push('-'), folded_text(password));
}

proof fn lemma_folded_is_dotted(text: Seq<char>)
    requires
        single_units(text),
    ensures
        folded_text(text) == dotted_text(text),
    decreases text.len(),
{
    if text.len() == 0 {
        assert(dotted_text(text) =~= Seq::<char>::empty());
    } else {
        let front = text.drop_last();
        assert(single_units(front)) by {
            assert forall|i: int| 0 <= i < front.len() implies (#[trigger] front[i]) as u32
                <= 0xFFFF by {
                assert(front[i] == text[i]);
            }
        }
        lemma_folded_is_dotted(front);
        assert(text.last() == text[text.len() - 1]);
        assert(dotted_text(text) =~= dotted_text(front) + folded_char(text.last()));
    }
}

/// A password of characters that take one UTF-16 code unit each gives the
/// response of the same password with a full stop in place of every
/// character above 255.
pub proof fn lemma_response_dots_password(challenge: Seq<char>, password: Seq<char>)
    requires
        single_units(password),
    ensures
        response_text(challenge, dotted_text(password)) == response_text(challenge, password),
{
    lemma_folded_is_dotted(password);
    lemma_response_folds_password(challenge, password);
}

/// Every byte gives two hexadecimal digits.
pub proof fn lemma_hex_len(bytes: Seq<u8>)
    ensures
        hex(bytes).len() == 2 * bytes.len(),
    decreases bytes.len(),
{
    if bytes.len() > 0 {
        lemma_hex_len(bytes.drop_last());
    }
}

/// Appends to `out` the bytes that the router hashes for one character.
fn push_char_bytes(out: &mut Vec<u8>, c: char)
    ensures
        final(out)@ == old(out)@ + folded_bytes(utf16_units(c)),
{
    let v: u32 = c as u32;
    let ghost units = utf16_units(c);
    if v < 0x10000 {
        let unit: u16 = v as u16;
        let folded: u16 = if unit > 255 {
            0x2E
        } else {
            unit
        };
        out.push((folded % 256) as u8);
        out.push((folded / 256) as u8);
        proof {
            assert(units.drop_last() =~= Seq::<u16>::empty());
            assert(folded_bytes(units.drop_last()) =~= Seq::<u8>::empty());
            assert(folded_bytes(units) =~= unit_bytes(fold_unit(unit)));
            assert(out@ =~= old(out)@ + folded_bytes(units));
        }
    } else {
        let offset: u32 = v - 0x10000;
        assert(offset >> 10 <= 0x3FF && offset & 0x3FF <= 0x3FF) by (bit_vector)
            requires
                offset < 0x100000,
        ;
        let high: u16 = (0xD800 + (offset >> 10)) as u16;
        let low: u16 = (0xDC00 + (offset & 0x3FF)) as u16;
        let high_folded: u16 = if high > 255 {
            0x2E
        } else {
            high
        };
        let low_folded: u16 = if low > 255 {
            0x2E
        } else {
            low
        };
        out.push((high_folded % 256) as u8);
        out.push((high_folded / 256) as u8);
        out.push((low_folded % 256) as u8);
        out.push((low_folded / 256) as u8);
        proof {
            assert(units.drop_last() =~= seq![high]);
            assert(units.drop_last().drop_last() =~= Seq::<u16>::empty());
            assert(folded_bytes(units.drop_last().drop_last()) =~= Seq::<u8>::empty());
            assert(folded_bytes(units.drop_last()) =~= unit_bytes(fold_unit(high)));
            assert(folded_bytes(units) =~= unit_bytes(fold_unit(high)) + unit_bytes(
                fold_unit(low),
            ));
            assert(out@ =~= old(out)@ + folded_bytes(units));
        }
    }
}

/// The bytes that the router hashes for `text`: its UTF-16 code units, each
/// one above 255 replaced by `0x2E`, each written low byte first.
pub fn legacy_encode(text: &str) -> (bytes: Vec<u8>)
    ensures
        bytes@ == legacy_bytes(text@),
{
    let mut bytes: Vec<u8> = Vec::new();
    for c in it: text.chars()
        invariant
            it.seq() == text@,
            bytes@ == legacy_bytes(text@.take(it.index())),
    {
        proof {
            let done = text@.take(it.index());
            assert(text@.take(it.index() + 1) =~= done.push(c));
            assert(done.push(c).drop_last() =~= done);
            lemma_folded_bytes_concat(utf16(done), utf16_units(c));
        }
        push_char_bytes(&mut bytes, c);
    }
    assert(text@.take(text@.len() as int) =~= text@);
    bytes
}

/// The lower case hexadecimal digit of a value below 16.
fn hex_char(d: u8) -> (c: char)
    requires
        d < 16,
    ensures
        c == hex_digit(d as nat),
{
    if d < 10 {
        (d + 48) as char
    } else {
        (d + 87) as char
    }
}

/// Appends two lower case hexadecimal digits for each byte to `out`.
pub fn push_hex(out: &mut String, bytes: &[u8])
    ensures
        final(out)@ == old(out)@ + hex(bytes@),
{
    let mut i: usize = 0;
    assert(bytes@.take(0) =~= Seq::<u8>::empty());
    while i < bytes.len()
        invariant
            i <= bytes@.len(),
            out@ == old(out)@ + hex(bytes@.take(i as int)),
        decreases bytes@.len() - i,
    {
        let b: u8 = bytes[i];
        out.push(hex_char(b / 16));
        out.push(hex_char(b % 16));
        proof {
            assert(bytes@.take(i + 1).drop_last() =~= bytes@.take(i as int));
            assert(out@ =~= old(out)@ + hex(bytes@.take(i + 1)));
        }
        i = i + 1;
    }
    assert(bytes@.take(bytes@.len() as int) =~= bytes@);
}

/// The response for a challenge, given the digest of the secret text.
pub fn response_from_digest(challenge: &str, digest: &[u8]) -> (response: String)
    ensures
        response@ == response_of_digest(challenge@, digest@),
{
    let mut response = challenge.to_owned();
    response.push('-');
    push_hex(&mut response, digest);
    response
}

/// The response token for a challenge and a password.
///
/// It is the challenge, a hyphen, and the 32 hexadecimal digits of the MD5
/// digest of the bytes that the router hashes for `challenge-password`.
pub fn compute_response(challenge: &str, password: &str) -> (response: String)
    ensures
        response@ == response_text(challenge@, password@),
        response@.len() == challenge@.len() + 33,
{
    proof {
        lemma_hex_len(md5_digest(legacy_bytes(secret_text(challenge@, password@))));
    }
    let mut secret = challenge.to_owned();
    secret.push('-');
    secret.append(password);
    let bytes = legacy_encode(secret.as_str());
    let digest = md5_sum(bytes.as_slice());
    response_from_digest(challenge, digest.as_slice())
}

} // verus!
