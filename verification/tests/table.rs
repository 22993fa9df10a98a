use serde_json::Number;
use taipower::json::{Document, Json};
use taipower::normalize::{rewrite_cells, rewrite_row, rewrite_rows, rewrite_table, ROWS_KEY};

fn text(s: &str) -> Json {
    Json::Text(s.to_string())
}

fn texts(cells: &[&str]) -> Vec<Json> {
    cells.iter().map(|s| text(s)).collect()
}

#[test]
fn rows_key_is_the_upstream_name() {
    assert_eq!(ROWS_KEY, "aaData");
}

#[test]
fn document_get_finds_what_insert_bound() {
    let mut doc = Document::new();
    assert_eq!(doc.get("a"), None);
    doc.insert("a".to_string(), text("1"));
    doc.insert("".to_string(), text("2"));
    assert_eq!(doc.get("a"), Some(&text("1")));
    assert_eq!(doc.get(""), Some(&text("2")));
    assert_eq!(doc.get("b"), None);
}

#[test]
fn document_insert_replaces_the_value_of_a_name() {
    let mut doc = Document::new();
    doc.insert("a".to_string(), text("1"));
    doc.insert("b".to_string(), text("2"));
    doc.insert("a".to_string(), text("3"));
    assert_eq!(doc.get("a"), Some(&text("3")));
    assert_eq!(doc.get("b"), Some(&text("2")));
}

#[test]
fn lead_zero_columns_are_three_and_four() {
    let cells = texts(&["1", "1", "1", "1", "1", "1", "1", "1", "1"]);
    assert_eq!(
        rewrite_cells(&cells),
        texts(&["1", "1", "1", "0", "0", "1", "1", "1", "1"])
    );
}

#[test]
fn rewrite_cells_cleans_each_cell_by_its_column() {
    let cells = texts(&["<b>火力</b>", "林口", "林口#1", "800.0", "-", " ", "<i>運轉中</i>", "-"]);
    assert_eq!(
        rewrite_cells(&cells),
        texts(&["火力", "林口", "林口#1", "0", "", "", "運轉中", ""])
    );
}

#[test]
fn rewrite_cells_keeps_numbers_in_every_column() {
    let cells: Vec<Json> = (0..6u64).map(|n| Json::Number(Number::from(n))).collect();
    let expected: Vec<Json> = (0..6u64).map(|n| Json::Number(Number::from(n))).collect();
    assert_eq!(rewrite_cells(&cells), expected);
}

#[test]
fn rewrite_cells_keeps_the_number_of_cells() {
    for n in 0..12usize {
        let cells: Vec<Json> = (0..n).map(|_| text("<b>x</b>")).collect();
        assert_eq!(rewrite_cells(&cells).len(), n);
    }
}

#[test]
fn rewrite_row_copies_what_is_no_array() {
    assert_eq!(rewrite_row(&text("-")), text("-"));
    assert_eq!(rewrite_row(&Json::Null), Json::Null);
    assert_eq!(rewrite_row(&Json::Array(vec![text("-")])), Json::Array(vec![text("")]));
}

#[test]
fn rewrite_table_keeps_rows_and_cells_in_number() {
    let table = Json::Array(vec![
        Json::Array(texts(&["<b>a</b>", "-", " ", "1", "2", "3"])),
        text("-"),
        Json::Array(vec![]),
        Json::Array(texts(&["-"])),
    ]);
    let expected = Json::Array(vec![
        Json::Array(texts(&["a", "", "", "0", "0", "3"])),
        text("-"),
        Json::Array(vec![]),
        Json::Array(texts(&[""])),
    ]);
    assert_eq!(rewrite_table(&table), expected);
}

#[test]
fn rewrite_table_copies_what_is_no_array() {
    assert_eq!(rewrite_table(&text("<b>x</b>")), text("<b>x</b>"));
}

#[test]
fn rewrite_rows_rewrites_the_table_and_nothing_else() {
    let mut doc = Document::new();
    doc.insert("".to_string(), text("2024-03-15 09:30"));
    doc.insert("note".to_string(), text("<b>-</b>"));
    doc.insert(
        "aaData".to_string(),
        Json::Array(vec![Json::Array(texts(&["<b>核能</b>", "-"])), Json::Bool(true)]),
    );
    rewrite_rows(&mut doc);
    assert_eq!(doc.get(""), Some(&text("2024-03-15 09:30")));
    assert_eq!(doc.get("note"), Some(&text("<b>-</b>")));
    assert_eq!(
        doc.get("aaData"),
        Some(&Json::Array(vec![Json::Array(texts(&["核能", ""])), Json::Bool(true)]))
    );
}

#[test]
fn rewrite_rows_leaves_a_document_without_table_alone() {
    let mut doc = Document::new();
    doc.insert("other".to_string(), Json::Array(vec![Json::Array(texts(&["-"]))]));
    rewrite_rows(&mut doc);
    assert_eq!(doc.get("other"), Some(&Json::Array(vec![Json::Array(texts(&["-"]))])));
    assert_eq!(doc.get("aaData"), None);
}

#[test]
fn rewrite_rows_leaves_a_table_that_is_no_array_alone() {
    let mut doc = Document::new();
    doc.insert("aaData".to_string(), text("-"));
    rewrite_rows(&mut doc);
    assert_eq!(doc.get("aaData"), Some(&text("-")));
}
