//! Tests of cursors and their selections.

use glsl_gen::cursor::{CharPosition, Cursor, TextComponentContent};

fn pos(line: usize, column: usize) -> CharPosition {
    CharPosition { line, column }
}

#[test]
fn new_cursor_has_empty_selection() {
    let cursor = Cursor::new(pos(2, 5));
    let range = cursor.selection_range();
    assert_eq!(range.start, pos(2, 5));
    assert_eq!(range.end, pos(2, 5));
    assert!(!cursor.is_char_selected(pos(2, 5)));
    assert!(!cursor.is_char_selected(pos(2, 4)));
}

#[test]
fn selection_range_orders_its_ends() {
    let forward = Cursor { position: pos(1, 2), selected_to: pos(3, 0) };
    let range = forward.selection_range();
    assert_eq!(range.start, pos(1, 2));
    assert_eq!(range.end, pos(3, 0));

    let backward = Cursor { position: pos(3, 0), selected_to: pos(1, 2) };
    let range = backward.selection_range();
    assert_eq!(range.start, pos(1, 2));
    assert_eq!(range.end, pos(3, 0));
}

#[test]
fn char_selection_is_start_inclusive_end_exclusive() {
    let cursor = Cursor { position: pos(0, 2), selected_to: pos(0, 6) };
    assert!(!cursor.is_char_selected(pos(0, 1)));
    assert!(cursor.is_char_selected(pos(0, 2)));
    assert!(cursor.is_char_selected(pos(0, 5)));
    assert!(!cursor.is_char_selected(pos(0, 6)));
}

#[test]
fn selection_spans_lines() {
    let cursor = Cursor { position: pos(1, 4), selected_to: pos(3, 1) };
    assert!(cursor.is_char_selected(pos(2, 0)));
    assert!(cursor.is_char_selected(pos(2, 100)));
    assert!(cursor.is_char_selected(pos(3, 0)));
    assert!(!cursor.is_char_selected(pos(3, 1)));
    assert!(!cursor.is_char_selected(pos(1, 3)));
}

#[test]
fn current_line_indexes_by_the_column_field() {
    let content = TextComponentContent {
        lines: vec![String::from("first"), String::from("second"), String::from("third")],
    };
    let cursor = Cursor::new(pos(0, 1));
    assert_eq!(cursor.current_line(&content), "second");
}
