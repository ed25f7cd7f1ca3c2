//! Rendering of records as an aligned text table.
//!
//! A record becomes a row by listing its columns: the header of each and the
//! value it holds. The table takes its header from the first row, and gives
//! every column the width of its widest entry.

use crate::text::{
    decimal, push_spaces, signed_text, spaces, to_upper, unsigned_text, upper_text,
};
use vstd::prelude::*;
use vstd::string::*;

verus! {

/// The value of one cell.
pub enum Cell {
    Text(String),
    Bool(bool),
    Int(i64),
    Uint(u64),
}

pub ghost enum CellView {
    Text(Seq<char>),
    Bool(bool),
    Int(int),
    Uint(nat),
}

impl View for Cell {
    type V = CellView;

    open spec fn view(&self) -> CellView {
        match self {
            Cell::Text(s) => CellView::Text(s@),
            Cell::Bool(b) => CellView::Bool(*b),
            Cell::Int(n) => CellView::Int(*n as int),
            Cell::Uint(n) => CellView::Uint(*n as nat),
        }
    }
}

impl Cell {
    /// The text that stands for the value in a table: a string as it is, a
    /// boolean as `true` or `false`, an integer in base 10.
    pub open spec fn text(&self) -> Seq<char> {
        match self@ {
            CellView::Text(s) => s,
            CellView::Bool(b) => if b {
                "true"@
            } else {
                "false"@
            },
            CellView::Int(n) => decimal(n),
            CellView::Uint(n) => decimal(n as int),
        }
    }

    /// A cell of the same kind with the same value.
    pub fn duplicate(&self) -> (r: Cell)
        ensures
            r@ == self@,
    {
        match self {
            Cell::Text(s) => Cell::Text(s.clone()),
            Cell::Bool(b) => Cell::Bool(*b),
            Cell::Int(n) => Cell::Int(*n),
            Cell::Uint(n) => Cell::Uint(*n),
        }
    }

    /// The text that stands for the value in a table.
    pub fn to_text(&self) -> (r: String)
        ensures
            r@ == self.text(),
    {
        match self {
            Cell::Text(s) => s.clone(),
            Cell::Bool(b) => if *b {
                "true".to_owned()
            } else {
                "false".to_owned()
            },
            Cell::Int(n) => signed_text(*n),
            Cell::Uint(n) => unsigned_text(*n),
        }
    }
}

/// One column of one row: its header and its value.
pub struct Column {
    pub name: String,
    pub value: Cell,
}

/// What a column shows: the header text and the cell text.
pub ghost struct Field {
    pub name: Seq<char>,
    pub text: Seq<char>,
}

impl Column {
    pub fn new(name: &str, value: Cell) -> (r: Column)
        ensures
            r.name@ == name@,
            r.value == value,
    {
        Column { name: name.to_owned(), value }
    }

    /// A column that shows a text under a name.
    pub fn of_text(name: &str, text: &str) -> (r: Column)
        ensures
            r.field() == (Field { name: name@, text: text@ }),
    {
        Column::new(name, Cell::Text(text.to_owned()))
    }

    pub open spec fn field(&self) -> Field {
        Field { name: self.name@, text: self.value.text() }
    }
}

/// A record that can be shown as one row of a table.
pub trait TableRow {
    /// The columns of this row, in the order in which they are shown.
    spec fn fields(&self) -> Seq<Field>;

    fn columns(&self) -> (cols: Vec<Column>)
        ensures
            cols@.len() == self.fields().len(),
            forall|i: int| 0 <= i < cols@.len() ==> (#[trigger] cols@[i]).field() == self.fields()[i],
    ;

    /// The texts of the row's cells, in column order.
    fn cells(&self) -> (texts: Vec<String>)
        ensures
            texts@.len() == self.fields().len(),
            forall|i: int| 0 <= i < texts@.len() ==> (#[trigger] texts@[i])@ == self.fields()[i].text,
    {
        let cols = self.columns();
        let mut texts: Vec<String> = Vec::new();
        let mut i: usize = 0;
        while i < cols.len()
            invariant
                i <= cols@.len(),
                cols@.len() == self.fields().len(),
                forall|k: int| 0 <= k < cols@.len() ==> (#[trigger] cols@[k]).field() == self.fields()[k],
                texts@.len() == i,
                forall|k: int| 0 <= k < i ==> (#[trigger] texts@[k])@ == self.fields()[k].text,
            decreases cols@.len() - i,
        {
            assert(cols@[i as int].field() == self.fields()[i as int]);
            texts.push(cols[i].value.to_text());
            i = i + 1;
        }
        texts
    }
}

/// A row that is nothing but its columns: any record can be shown by
/// listing them.
pub struct Record {
    pub columns: Vec<Column>,
}

impl TableRow for Record {
    open spec fn fields(&self) -> Seq<Field> {
        self.columns@.map_values(|c: Column| c.field())
    }

    fn columns(&self) -> (cols: Vec<Column>) {
        let mut cols: Vec<Column> = Vec::new();
        let mut i: usize = 0;
        while i < self.columns.len()
            invariant
                i <= self.columns@.len(),
                cols@.len() == i,
                forall|k: int| 0 <= k < i ==> (#[trigger] cols@[k]).field() == self.columns@[k].field(),
            decreases self.columns@.len() - i,
        {
            let column = &self.columns[i];
            cols.push(Column::new(column.name.as_str(), column.value.duplicate()));
            i = i + 1;
        }
        cols
    }
}

/// The larger of two lengths.
pub open spec fn longer(a: nat, b: nat) -> nat {
    if a >= b {
        a
    } else {
        b
    }
}

/// The length of the longest cell text in column `c` of the given rows.
pub open spec fn widest_cell(table: Seq<Seq<Field>>, c: int) -> nat
    decreases table.len(),
{
    if table.len() == 0 {
        0
    } else {
        longer(widest_cell(table.drop_last(), c), table.last()[c].text.len())
    }
}

/// The width of column `c`: the length, in characters, of the longest of
/// the header and every cell of the column.
pub open spec fn column_width(table: Seq<Seq<Field>>, c: int) -> nat {
    longer(table[0][c].name.len(), widest_cell(table, c))
}

/// One entry of a line: the text, the spaces that fill it up to the width of
/// its column, and the spacing between columns.
pub open spec fn padded(text: Seq<char>, width: nat, spacing: nat) -> Seq<char> {
    let fill = if width >= text.len() {
        (width - text.len()) as nat
    } else {
        0
    };
    text + spaces(fill) + spaces(spacing)
}

/// The first `n` entries of a line of the table.
pub open spec fn line_start(
    table: Seq<Seq<Field>>,
    texts: Seq<Seq<char>>,
    spacing: nat,
    n: int,
) -> Seq<char>
    decreases n,
{
    if n <= 0 {
        Seq::empty()
    } else {
        line_start(table, texts, spacing, n - 1) + padded(
            texts[n - 1],
            column_width(table, n - 1),
            spacing,
        )
    }
}

/// A whole line of the table: every entry, then a newline.
pub open spec fn line(table: Seq<Seq<Field>>, texts: Seq<Seq<char>>, spacing: nat) -> Seq<char> {
    line_start(table, texts, spacing, texts.len() as int).push('\n')
}

/// The headers of a row: the names of its columns in upper case.
pub open spec fn header_texts(row: Seq<Field>) -> Seq<Seq<char>> {
    row.map_values(|f: Field| upper_text(f.name))
}

/// The texts of the cells of a row.
pub open spec fn cell_texts(row: Seq<Field>) -> Seq<Seq<char>> {
    row.map_values(|f: Field| f.text)
}

/// The lines of the first `n` rows of the table.
pub open spec fn body_start(table: Seq<Seq<Field>>, spacing: nat, n: int) -> Seq<char>
    decreases n,
{
    if n <= 0 {
        Seq::empty()
    } else {
        body_start(table, spacing, n - 1) + line(table, cell_texts(table[n - 1]), spacing)
    }
}

/// The text of a table: nothing for no rows; else the header line of the
/// first row, then one line for each row.
pub open spec fn render(table: Seq<Seq<Field>>, spacing: nat) -> Seq<char> {
    if table.len() == 0 {
        Seq::empty()
    } else {
        line(table, header_texts(table[0]), spacing) + body_start(
            table,
            spacing,
            table.len() as int,
        )
    }
}

/// The rows as the table they form.
pub open spec fn table_of<R: TableRow>(rows: Seq<R>) -> Seq<Seq<Field>> {
    rows.map_values(|r: R| r.fields())
}

/// Every row has as many columns as the first one.
pub open spec fn uniform(table: Seq<Seq<Field>>) -> bool {
    forall|i: int| 0 <= i < table.len() ==> (#[trigger] table[i]).len() == table[0].len()
}

/// Appends one entry of a line to `out`.
pub fn push_padded(out: &mut String, text: &str, width: usize, spacing: usize)
    ensures
        final(out)@ == old(out)@ + padded(text@, width as nat, spacing as nat),
{
    let len = text.unicode_len();
    out.append(text);
    if width > len {
        push_spaces(out, width - len);
    } else {
        assert(spaces(0) =~= Seq::<char>::empty());
    }
    push_spaces(out, spacing);
    assert(out@ =~= old(out)@ + padded(text@, width as nat, spacing as nat));
}

/// Renders rows as a table with a fixed number of spaces after each column.
pub struct Renderer {
    pub column_spacing: usize,
}

impl Default for Renderer {
    fn default() -> (r: Self)
        ensures
            r.column_spacing == 4,
    {
        Renderer { column_spacing: 4 }
    }
}

/// No cell of a column is longer than the widest one.
pub proof fn lemma_widest_cell_covers(table: Seq<Seq<Field>>, r: int, c: int)
    requires
        0 <= r < table.len(),
    ensures
        table[r][c].text.len() <= widest_cell(table, c),
    decreases table.len(),
{
    if r < table.len() - 1 {
        lemma_widest_cell_covers(table.drop_last(), r, c);
    }
}

/// A column is as wide as its header and as each of its cells, at least.
pub proof fn lemma_column_width_covers(table: Seq<Seq<Field>>, r: int, c: int)
    requires
        0 <= r < table.len(),
    ensures
        table[0][c].name.len() <= column_width(table, c),
        table[r][c].text.len() <= column_width(table, c),
{
    lemma_widest_cell_covers(table, r, c);
}

/// An entry that fits its column begins with its text, goes on with spaces
/// only, and takes the width of the column and the spacing. Whatever its
/// text, it ends with the spacing: the text of two columns never touches.
pub proof fn lemma_padded_shape(text: Seq<char>, width: nat, spacing: nat)
    ensures
        padded(text, width, spacing).len() >= text.len() + spacing,
        text.len() <= width ==> padded(text, width, spacing).len() == width + spacing,
        padded(text, width, spacing).take(text.len() as int) == text,
        forall|i: int|
            text.len() <= i < padded(text, width, spacing).len() ==> padded(
                text,
                width,
                spacing,
            )[i] == ' ',
{
    assert(padded(text, width, spacing).take(text.len() as int) =~= text);
}

/// The length of a line of `n` entries that fit their columns: the widths
/// of the columns, the spacing after each, and the newline.
pub open spec fn line_len(table: Seq<Seq<Field>>, spacing: nat, n: int) -> nat
    decreases n,
{
    if n <= 0 {
        1
    } else {
        line_len(table, spacing, n - 1) + column_width(table, n - 1) + spacing
    }
}

proof fn lemma_line_start_len(table: Seq<Seq<Field>>, texts: Seq<Seq<char>>, spacing: nat, n: int)
    requires
        0 <= n <= texts.len(),
        forall|c: int| 0 <= c < n ==> (#[trigger] texts[c]).len() <= column_width(table, c),
    ensures
        line_start(table, texts, spacing, n).len() + 1 == line_len(table, spacing, n),
    decreases n,
{
    if n > 0 {
        lemma_line_start_len(table, texts, spacing, n - 1);
        lemma_padded_shape(texts[n - 1], column_width(table, n - 1), spacing);
    }
}

/// In a table whose rows have as many columns as the first, the header
/// line and the line of every row have the same length, so the columns
/// stand under each other.
pub proof fn lemma_lines_align(table: Seq<Seq<Field>>, spacing: nat, r: int)
    requires
        uniform(table),
        0 <= r < table.len(),
    ensures
        line(table, header_texts(table[0]), spacing).len() == line_len(
            table,
            spacing,
            table[0].len() as int,
        ),
        line(table, cell_texts(table[r]), spacing).len() == line_len(
            table,
            spacing,
            table[0].len() as int,
        ),
{
    let n = table[0].len() as int;
    assert(table[r].len() == n);
    assert forall|c: int| 0 <= c < n implies (#[trigger] header_texts(table[0])[c]).len()
        <= column_width(table, c) by {
        lemma_column_width_covers(table, 0, c);
    }
    assert forall|c: int| 0 <= c < n implies (#[trigger] cell_texts(table[r])[c]).len()
        <= column_width(table, c) by {
        lemma_column_width_covers(table, r, c);
    }
    lemma_line_start_len(table, header_texts(table[0]), spacing, n);
    lemma_line_start_len(table, cell_texts(table[r]), spacing, n);
}

/// Leaving out the last row changes no width of the rows before it.
proof fn lemma_widest_cell_step(table: Seq<Seq<Field>>, n: int, c: int)
    requires
        0 <= n < table.len(),
    ensures
        widest_cell(table.take(n + 1), c) == longer(
            widest_cell(table.take(n), c),
            table[n][c].text.len(),
        ),
{
    assert(table.take(n + 1).drop_last() =~= table.take(n));
}

impl Renderer {
    /// The table of the given rows as text.
    ///
    /// No rows give the empty string. Otherwise the first line holds the
    /// column names of the first row in upper case, as headers, and each
    /// further line the cells of one row,
    /// every entry filled with spaces up to the width of its column and
    /// followed by the column spacing, every line ended by a newline.
    pub fn to_string<R: TableRow>(&self, rows: &[R]) -> (out: String)
        requires
            uniform(table_of(rows@)),
        ensures
            out@ == render(table_of(rows@), self.column_spacing as nat),
    {
        let mut out = String::new();
        if rows.len() == 0 {
            return out;
        }
        let ghost table = table_of(rows@);
        let spacing = self.column_spacing;
        let head = rows[0].columns();
        let count = head.len();
        assert(table[0] == rows@[0].fields());

        let mut titles: Vec<String> = Vec::new();
        let mut widths: Vec<usize> = Vec::new();
        let mut c: usize = 0;
        while c < count
            invariant
                c <= count,
                count == head@.len(),
                titles@.len() == c,
                widths@.len() == c,
                forall|k: int| 0 <= k < c ==> (#[trigger] titles@[k])@ == upper_text(head@[k].name@),
                forall|k: int| 0 <= k < c ==> (#[trigger] widths@[k]) as nat == head@[k].name@.len(),
            decreases count - c,
        {
            let title = to_upper(head[c].name.as_str());
            widths.push(title.as_str().unicode_len());
            titles.push(title);
            c = c + 1;
        }

        let mut grid: Vec<Vec<String>> = Vec::new();
        let mut r: usize = 0;
        while r < rows.len()
            invariant
                r <= rows@.len(),
                table == table_of(rows@),
                uniform(table),
                table.len() == rows@.len(),
                table.len() > 0,
                count == table[0].len(),
                count == head@.len(),
                forall|k: int| 0 <= k < count ==> (#[trigger] head@[k]).field() == table[0][k],
                widths@.len() == count,
                forall|k: int|
                    0 <= k < count ==> (#[trigger] widths@[k]) as nat == longer(
                        table[0][k].name.len(),
                        widest_cell(table.take(r as int), k),
                    ),
                grid@.len() == r,
                forall|i: int| 0 <= i < r ==> (#[trigger] grid@[i])@.len() == count,
                forall|i: int, k: int|
                    0 <= i < r && 0 <= k < count ==> (#[trigger] grid@[i]@[k])@ == table[i][k].text,
            decreases rows@.len() - r,
        {
            let texts = rows[r].cells();
            assert(table[r as int] == rows@[r as int].fields());
            assert(table[r as int].len() == count);
            let mut k: usize = 0;
            while k < count
                invariant
                    k <= count,
                    0 <= r < table.len(),
                    texts@.len() == count,
                    widths@.len() == count,
                    forall|j: int| 0 <= j < count ==> (#[trigger] texts@[j])@ == table[r as int][j].text,
                    forall|j: int|
                        0 <= j < k ==> (#[trigger] widths@[j]) as nat == longer(
                            table[0][j].name.len(),
                            widest_cell(table.take(r + 1), j),
                        ),
                    forall|j: int|
                        k <= j < count ==> (#[trigger] widths@[j]) as nat == longer(
                            table[0][j].name.len(),
                            widest_cell(table.take(r as int), j),
                        ),
                decreases count - k,
            {
                proof {
                    lemma_widest_cell_step(table, r as int, k as int);
                }
                let len = texts[k].as_str().unicode_len();
                if len > widths[k] {
                    widths.set(k, len);
                }
                k = k + 1;
            }
            grid.push(texts);
            r = r + 1;
        }
        assert(table.take(table.len() as int) =~= table);

        let ghost names = header_texts(table[0]);
        assert forall|k: int| 0 <= k < count implies (#[trigger] titles@[k])@ == names[k] by {
            assert(head@[k].field() == table[0][k]);
        }
        let mut c: usize = 0;
        while c < count
            invariant
                c <= count,
                table.len() > 0,
                count == head@.len(),
                count == table[0].len(),
                names == header_texts(table[0]),
                titles@.len() == count,
                forall|k: int| 0 <= k < count ==> (#[trigger] titles@[k])@ == names[k],
                widths@.len() == count,
                forall|k: int| 0 <= k < count ==> (#[trigger] widths@[k]) as nat == column_width(table, k),
                out@ == line_start(table, names, spacing as nat, c as int),
            decreases count - c,
        {
            push_padded(&mut out, titles[c].as_str(), widths[c], spacing);
            c = c + 1;
        }
        out.push('\n');

        let mut r: usize = 0;
        while r < grid.len()
            invariant
                r <= grid@.len(),
                grid@.len() == table.len(),
                table.len() > 0,
                uniform(table),
                count == table[0].len(),
                names == header_texts(table[0]),
                forall|i: int| 0 <= i < grid@.len() ==> (#[trigger] grid@[i])@.len() == count,
                forall|i: int, k: int|
                    0 <= i < grid@.len() && 0 <= k < count ==> (#[trigger] grid@[i]@[k])@
                        == table[i][k].text,
                widths@.len() == count,
                forall|k: int| 0 <= k < count ==> (#[trigger] widths@[k]) as nat == column_width(table, k),
                out@ == line(table, names, spacing as nat) + body_start(table, spacing as nat, r as int),
            decreases grid@.len() - r,
        {
            let ghost before = out@;
            let ghost texts = cell_texts(table[r as int]);
            assert(table[r as int].len() == count);
            let mut c: usize = 0;
            while c < count
                invariant
                    c <= count,
                    0 <= r < grid@.len(),
                    grid@.len() == table.len(),
                    (#[trigger] grid@[r as int])@.len() == count,
                    table[r as int].len() == count,
                    texts == cell_texts(table[r as int]),
                    forall|k: int| 0 <= k < count ==> (#[trigger] grid@[r as int]@[k])@ == table[r as int][k].text,
                    widths@.len() == count,
                    forall|k: int| 0 <= k < count ==> (#[trigger] widths@[k]) as nat == column_width(table, k),
                    out@ == before + line_start(table, texts, spacing as nat, c as int),
                decreases count - c,
            {
                assert(grid@[r as int]@[c as int]@ == table[r as int][c as int].text);
                push_padded(&mut out, grid[r][c].as_str(), widths[c], spacing);
                assert(out@ =~= before + line_start(table, texts, spacing as nat, c + 1));
                c = c + 1;
            }
            out.push('\n');
            assert(out@ =~= before + line(table, texts, spacing as nat));
            r = r + 1;
        }
        out
    }
}

} // verus!
