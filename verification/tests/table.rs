use fritzctl::table::{push_padded, Cell, Column, Record, Renderer, TableRow};
use fritzctl::text::{push_spaces, signed_text, to_upper, unsigned_text};

fn record(columns: Vec<(&str, Cell)>) -> Record {
    Record {
        columns: columns
            .into_iter()
            .map(|(name, value)| Column::new(name, value))
            .collect(),
    }
}

fn text(value: &str) -> Cell {
    Cell::Text(value.to_string())
}

#[test]
fn no_rows_render_as_empty_string() {
    let rows: Vec<Record> = Vec::new();
    assert_eq!(Renderer { column_spacing: 2 }.to_string(&rows), "");
    assert_eq!(Renderer::default().to_string(&rows), "");
}

#[test]
fn one_row_with_spacing_two() {
    let rows = vec![record(vec![("NAME", text("x")), ("COUNT", Cell::Int(3))])];
    let out = Renderer { column_spacing: 2 }.to_string(&rows);
    assert_eq!(out, "NAME  COUNT  \nx     3      \n");
    let lines: Vec<&str> = out.lines().map(|line| line.trim_end()).collect();
    assert_eq!(lines, vec!["NAME  COUNT", "x     3"]);
}

#[test]
fn default_spacing_is_four() {
    assert_eq!(Renderer::default().column_spacing, 4);
    let rows = vec![record(vec![("A", text("b"))])];
    assert_eq!(Renderer::default().to_string(&rows), "A    \nb    \n");
}

#[test]
fn width_is_the_longest_of_header_and_cells() {
    let rows = vec![
        record(vec![("ID", text("1")), ("NAME", text("alpha-long"))]),
        record(vec![("ID", text("12345")), ("NAME", text("b"))]),
    ];
    let out = Renderer { column_spacing: 1 }.to_string(&rows);
    assert_eq!(out, "ID    NAME       \n1     alpha-long \n12345 b          \n");
}

#[test]
fn multi_byte_character_counts_as_one() {
    let rows = vec![record(vec![("N", text("é")), ("M", text("y"))])];
    assert_eq!(Renderer { column_spacing: 2 }.to_string(&rows), "N  M  \né  y  \n");
    let rows = vec![
        record(vec![("N", text("日本")), ("M", text("y"))]),
        record(vec![("N", text("abc")), ("M", text("z"))]),
    ];
    assert_eq!(
        Renderer { column_spacing: 1 }.to_string(&rows),
        "N   M \n日本  y \nabc z \n"
    );
}

#[test]
fn spacing_is_added_even_when_content_fills_the_column() {
    let rows = vec![record(vec![("AB", text("cd")), ("EF", text("gh"))])];
    assert_eq!(Renderer { column_spacing: 3 }.to_string(&rows), "AB   EF   \ncd   gh   \n");
}

#[test]
fn zero_spacing_lets_columns_touch_only_at_full_width() {
    let rows = vec![record(vec![("AB", text("c")), ("D", text("ef"))])];
    assert_eq!(Renderer { column_spacing: 0 }.to_string(&rows), "ABD \nc ef\n");
}

#[test]
fn header_is_in_upper_case() {
    let rows = vec![record(vec![("name", text("x")), ("Update_available", text("no"))])];
    assert_eq!(
        Renderer { column_spacing: 1 }.to_string(&rows),
        "NAME UPDATE_AVAILABLE \nx    no               \n"
    );
    let rows = vec![record(vec![("größe", text("1"))])];
    assert_eq!(Renderer { column_spacing: 1 }.to_string(&rows), "GRößE \n1     \n");
}

#[test]
fn header_comes_from_the_first_row() {
    let rows = vec![
        record(vec![("first", text("a"))]),
        record(vec![("second-header", text("b"))]),
    ];
    assert_eq!(Renderer { column_spacing: 1 }.to_string(&rows), "FIRST \na     \nb     \n");
}

#[test]
fn every_line_has_the_same_length() {
    let rows = vec![
        record(vec![("NAME", text("router")), ("UP", Cell::Bool(true)), ("N", Cell::Int(-40))]),
        record(vec![("NAME", text("x")), ("UP", Cell::Bool(false)), ("N", Cell::Uint(7))]),
    ];
    let out = Renderer::default().to_string(&rows);
    assert_eq!(
        out,
        "NAME      UP       N      \nrouter    true     -40    \nx         false    7      \n"
    );
    let lengths: Vec<usize> = out.lines().map(|line| line.chars().count()).collect();
    assert_eq!(lengths, vec![26, 26, 26]);
    assert!(out.ends_with('\n'));
}

#[test]
fn rows_without_columns_render_as_empty_lines() {
    let rows = vec![record(vec![]), record(vec![])];
    assert_eq!(Renderer::default().to_string(&rows), "\n\n\n");
}

#[test]
fn cell_texts_by_type() {
    assert_eq!(text("as is").to_text(), "as is");
    assert_eq!(Cell::Bool(true).to_text(), "true");
    assert_eq!(Cell::Bool(false).to_text(), "false");
    assert_eq!(Cell::Int(0).to_text(), "0");
    assert_eq!(Cell::Int(-17).to_text(), "-17");
    assert_eq!(Cell::Int(i64::MIN).to_text(), "-9223372036854775808");
    assert_eq!(Cell::Int(i64::MAX).to_text(), "9223372036854775807");
    assert_eq!(Cell::Uint(u64::MAX).to_text(), "18446744073709551615");
}

#[test]
fn duplicate_keeps_the_value() {
    assert!(matches!(Cell::Int(-3).duplicate(), Cell::Int(-3)));
    assert!(matches!(Cell::Uint(3).duplicate(), Cell::Uint(3)));
    assert!(matches!(Cell::Bool(true).duplicate(), Cell::Bool(true)));
    assert_eq!(text("abc").duplicate().to_text(), "abc");
}

#[test]
fn text_column_shows_its_text() {
    let column = Column::of_text("uid", "landevice1");
    assert_eq!(column.name, "uid");
    assert_eq!(column.value.to_text(), "landevice1");
}

#[test]
fn record_lists_its_columns_in_order() {
    let row = record(vec![("A", text("x")), ("B", Cell::Int(2)), ("C", Cell::Bool(false))]);
    let columns = row.columns();
    let names: Vec<&str> = columns.iter().map(|c| c.name.as_str()).collect();
    assert_eq!(names, vec!["A", "B", "C"]);
    assert_eq!(row.cells(), vec!["x", "2", "false"]);
}

#[test]
fn decimal_texts() {
    assert_eq!(unsigned_text(0), "0");
    assert_eq!(unsigned_text(9), "9");
    assert_eq!(unsigned_text(10), "10");
    assert_eq!(unsigned_text(1234567890), "1234567890");
    assert_eq!(signed_text(-1), "-1");
    assert_eq!(signed_text(-100), "-100");
    assert_eq!(signed_text(42), "42");
}

#[test]
fn upper_case_of_ascii_letters_only() {
    assert_eq!(to_upper("abc-xyz_09 AZ"), "ABC-XYZ_09 AZ");
    assert_eq!(to_upper("`a{z|"), "`A{Z|");
    assert_eq!(to_upper("straße é"), "STRAßE é");
    assert_eq!(to_upper(""), "");
}

#[test]
fn spaces_are_appended() {
    let mut out = String::from("a");
    push_spaces(&mut out, 3);
    assert_eq!(out, "a   ");
    push_spaces(&mut out, 0);
    assert_eq!(out, "a   ");
}

#[test]
fn padded_entry() {
    let mut out = String::from("|");
    push_padded(&mut out, "ab", 5, 2);
    assert_eq!(out, "|ab     ");
    let mut out = String::new();
    push_padded(&mut out, "abcdef", 3, 1);
    assert_eq!(out, "abcdef ");
}
