//! Applying byte-range edits to source text.

use go_analyzer::edit::{Edit, EditKind, apply_edits};
use go_analyzer::span::Span;

fn make_edit(kind: EditKind) -> Edit {
    Edit {
        file: "test.go".to_string(),
        kind,
    }
}

fn delete_span(start: usize, end: usize) -> Edit {
    let span = Span {
        start_byte: start,
        end_byte: end,
        start_row: 0,
        start_col: 0,
        end_row: 0,
        end_col: 0,
    };
    make_edit(EditKind::Delete { span })
}

fn replace_span(start: usize, end: usize, text: &str) -> Edit {
    let span = Span {
        start_byte: start,
        end_byte: end,
        start_row: 0,
        start_col: 0,
        end_row: 0,
        end_col: 0,
    };
    make_edit(EditKind::Replace {
        span,
        new_text: text.to_owned(),
    })
}

fn insert_after(anchor: usize, text: &str) -> Edit {
    make_edit(EditKind::InsertAfter {
        anchor_byte: anchor,
        new_text: text.to_owned(),
    })
}

#[test]
fn test_replace_single_span() {
    let source = b"func Foo() {}";
    let edits = vec![replace_span(5, 8, "Bar")];
    let result = apply_edits(source, &edits).expect("should apply");
    assert_eq!(String::from_utf8(result).unwrap(), "func Bar() {}");
}

#[test]
fn test_delete_whole_line() {
    let source = b"line1\nline2\nline3\n";
    let edits = vec![delete_span(6, 11)]; // "line2"
    let result = apply_edits(source, &edits).expect("should apply");
    assert_eq!(String::from_utf8(result).unwrap(), "line1\nline3\n");
}

#[test]
fn test_insert_after() {
    let source = b"abc";
    let edits = vec![insert_after(3, "def")];
    let result = apply_edits(source, &edits).expect("should apply");
    assert_eq!(String::from_utf8(result).unwrap(), "abcdef");
}

#[test]
fn test_overlapping_edits_rejected() {
    let source = b"abcdef";
    let edits = vec![replace_span(1, 4, "X"), replace_span(3, 6, "Y")];
    let result = apply_edits(source, &edits);
    assert!(result.is_err());
}

#[test]
fn test_multiple_non_overlapping_edits() {
    let source = b"func Foo() {}\nfunc Bar() {}";
    let edits = vec![replace_span(5, 8, "AAA"), replace_span(19, 22, "BBB")];
    let result = apply_edits(source, &edits).expect("should apply");
    assert_eq!(
        String::from_utf8(result).unwrap(),
        "func AAA() {}\nfunc BBB() {}"
    );
}

#[test]
fn deletion_cleanup_stops_at_the_previous_edit() {
    // Deleting "X" would also take the blank line before it, which holds the
    // replaced space; the cleanup stops where the replacement ends.
    let source = b"a\n \nX";
    let edits = vec![replace_span(2, 3, "Q"), delete_span(4, 5)];
    let result = apply_edits(source, &edits).unwrap();
    assert_eq!(String::from_utf8(result).unwrap(), "a\nQ");
}

#[test]
fn deletion_cleanup_without_neighbour_takes_the_blank_line() {
    let source = b"a\n \nX";
    let edits = vec![delete_span(4, 5)];
    let result = apply_edits(source, &edits).unwrap();
    assert_eq!(String::from_utf8(result).unwrap(), "a\n");
}
