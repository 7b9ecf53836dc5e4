use line_editor::document::Document;
use line_editor::row::Row;

fn doc_of(lines: &[&str]) -> Document {
    Document::from_rows(lines.iter().map(|s| Row::from_chars(s.chars().collect())).collect())
}

fn line_of(doc: &Document, index: usize) -> String {
    let row = doc.row(index).expect("row out of range");
    let len = row.len();
    row.render(0, len)
}

#[test]
fn empty_file_yields_one_empty_row() {
    let d = doc_of(&[]);
    assert_eq!(d.line_count(), 1);
    assert_eq!(d.row_len(0), 0);
    assert_eq!(line_of(&d, 0), "");
}

#[test]
fn from_rows_preserves_lines_in_order() {
    let d = doc_of(&["first", "second", ""]);
    assert_eq!(d.line_count(), 3);
    assert_eq!(line_of(&d, 0), "first");
    assert_eq!(line_of(&d, 1), "second");
    assert_eq!(line_of(&d, 2), "");
}

#[test]
fn row_is_none_past_the_end() {
    let d = doc_of(&["one"]);
    assert!(d.row(0).is_some());
    assert!(d.row(1).is_none());
}

#[test]
fn row_len_is_zero_out_of_range() {
    let d = doc_of(&["one"]);
    assert_eq!(d.row_len(0), 3);
    assert_eq!(d.row_len(5), 0);
}

#[test]
fn insert_into_row_at_row_end() {
    let mut d = doc_of(&["ab"]);
    d.insert_into_row(0, 2, 'c');
    assert_eq!(line_of(&d, 0), "abc");
}

#[test]
fn insert_into_row_ignores_bad_coordinates() {
    let mut d = doc_of(&["ab"]);
    d.insert_into_row(1, 0, 'x');
    d.insert_into_row(0, 3, 'x');
    assert_eq!(d.line_count(), 1);
    assert_eq!(line_of(&d, 0), "ab");
}

#[test]
fn remove_from_row_in_range() {
    let mut d = doc_of(&["abc"]);
    d.remove_from_row(0, 1);
    assert_eq!(line_of(&d, 0), "ac");
}

#[test]
fn remove_from_row_past_end_removes_last_character() {
    let mut d = doc_of(&["abc"]);
    d.remove_from_row(0, 99);
    assert_eq!(line_of(&d, 0), "ab");
}

#[test]
fn remove_from_row_leaves_empty_row_alone() {
    let mut d = doc_of(&["", "x"]);
    d.remove_from_row(0, 0);
    assert_eq!(d.line_count(), 2);
    assert_eq!(line_of(&d, 0), "");
}

#[test]
fn remove_from_row_ignores_bad_row() {
    let mut d = doc_of(&["ab"]);
    d.remove_from_row(4, 0);
    assert_eq!(line_of(&d, 0), "ab");
}

#[test]
fn insert_then_remove_restores_row() {
    let mut d = doc_of(&["hello", "world"]);
    d.insert_into_row(1, 3, 'Z');
    assert_eq!(line_of(&d, 1), "worZld");
    d.remove_from_row(1, 3);
    assert_eq!(line_of(&d, 0), "hello");
    assert_eq!(line_of(&d, 1), "world");
    assert_eq!(d.line_count(), 2);
}

#[test]
fn merge_appends_to_previous_row() {
    let mut d = doc_of(&["hello", "world", "tail"]);
    d.remove_and_append_to_previous_row(1);
    assert_eq!(d.line_count(), 2);
    assert_eq!(line_of(&d, 0), "helloworld");
    assert_eq!(line_of(&d, 1), "tail");
}

#[test]
fn merge_ignores_first_row_and_bad_index() {
    let mut d = doc_of(&["a", "b"]);
    d.remove_and_append_to_previous_row(0);
    d.remove_and_append_to_previous_row(2);
    assert_eq!(d.line_count(), 2);
    assert_eq!(line_of(&d, 0), "a");
    assert_eq!(line_of(&d, 1), "b");
}

#[test]
fn remove_row_deletes_one_row() {
    let mut d = doc_of(&["a", "b", "c"]);
    d.remove_row(1);
    assert_eq!(d.line_count(), 2);
    assert_eq!(line_of(&d, 0), "a");
    assert_eq!(line_of(&d, 1), "c");
}

#[test]
fn remove_row_ignores_bad_index() {
    let mut d = doc_of(&["a"]);
    d.remove_row(3);
    assert_eq!(d.line_count(), 1);
}

#[test]
fn add_row_inserts_empty_row_and_keeps_texts() {
    let mut d = doc_of(&["a", "b", "c"]);
    d.add_row(1);
    assert_eq!(d.line_count(), 4);
    assert_eq!(line_of(&d, 0), "a");
    assert_eq!(line_of(&d, 1), "");
    assert_eq!(line_of(&d, 2), "b");
    assert_eq!(line_of(&d, 3), "c");
}

#[test]
fn add_row_clamps_to_last_slot() {
    let mut d = doc_of(&["a", "b", "c"]);
    d.add_row(99);
    assert_eq!(d.line_count(), 4);
    assert_eq!(line_of(&d, 0), "a");
    assert_eq!(line_of(&d, 1), "b");
    assert_eq!(line_of(&d, 2), "");
    assert_eq!(line_of(&d, 3), "c");
}
