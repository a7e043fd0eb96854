use phantom::buffer::{Tab, EDITOR_HEIGHT, EDITOR_WIDTH, HISTORY_LIMIT};

fn chars(s: &str) -> Vec<char> {
    s.chars().collect()
}

fn lines(ls: &[&str]) -> Vec<Vec<char>> {
    ls.iter().map(|l| chars(l)).collect()
}

#[test]
fn new_tab_is_single_empty_line() {
    let t = Tab::new();
    assert_eq!(t.content, lines(&[""]));
    assert_eq!(t.cursor_position, (0, 0));
    assert_eq!(t.scroll_offset, 0);
    assert_eq!(t.horizontal_scroll, 0);
    assert!(t.current_file.is_none());
    assert_eq!(t.syntax, "Plain Text");
    assert!(t.undo_stack.is_empty());
    assert!(t.redo_stack.is_empty());
}

#[test]
fn insert_char_advances_cursor() {
    let mut t = Tab::new();
    t.insert_char('a');
    t.insert_char('b');
    assert_eq!(t.content, lines(&["ab"]));
    assert_eq!(t.cursor_position, (2, 0));
}

#[test]
fn insert_then_backspace_round_trip() {
    let mut t = Tab::new();
    for c in "hello".chars() {
        t.insert_char(c);
    }
    let before_content = t.content.clone();
    let before_cursor = t.cursor_position;
    t.insert_char('x');
    t.backspace();
    assert_eq!(t.content, before_content);
    assert_eq!(t.cursor_position, before_cursor);
}

#[test]
fn insert_newline_splits_line() {
    let mut t = Tab::new();
    for c in "hello".chars() {
        t.insert_char(c);
    }
    t.cursor_position = (2, 0);
    t.insert_newline();
    assert_eq!(t.content, lines(&["he", "llo"]));
    assert_eq!(t.cursor_position, (0, 1));
}

#[test]
fn backspace_at_line_start_merges() {
    let mut t = Tab::from_lines(lines(&["ab", "cd"]), None, "Plain Text".to_string());
    t.cursor_position = (0, 1);
    t.backspace();
    assert_eq!(t.content, lines(&["abcd"]));
    assert_eq!(t.cursor_position, (2, 0));
}

#[test]
fn backspace_at_origin_is_noop_on_text() {
    let mut t = Tab::from_lines(lines(&["ab"]), None, "Plain Text".to_string());
    t.backspace();
    assert_eq!(t.content, lines(&["ab"]));
    assert_eq!(t.cursor_position, (0, 0));
}

#[test]
fn delete_char_removes_under_cursor() {
    let mut t = Tab::from_lines(lines(&["abc"]), None, "Plain Text".to_string());
    t.cursor_position = (1, 0);
    t.delete_char();
    assert_eq!(t.content, lines(&["ac"]));
}

#[test]
fn delete_char_at_eol_merges_next_line() {
    let mut t = Tab::from_lines(lines(&["ab", "cd"]), None, "Plain Text".to_string());
    t.cursor_position = (2, 0);
    t.delete_char();
    assert_eq!(t.content, lines(&["abcd"]));
}

#[test]
fn delete_line_keeps_buffer_nonempty() {
    let mut t = Tab::from_lines(lines(&["only"]), None, "Plain Text".to_string());
    let removed = t.delete_line();
    assert_eq!(removed, chars("only"));
    assert_eq!(t.content, lines(&[""]));
    assert_eq!(t.cursor_position, (0, 0));
}

#[test]
fn delete_last_line_steps_cursor_back() {
    let mut t = Tab::from_lines(lines(&["a", "b"]), None, "Plain Text".to_string());
    t.cursor_position = (0, 1);
    let removed = t.delete_line();
    assert_eq!(removed, chars("b"));
    assert_eq!(t.content, lines(&["a"]));
    assert_eq!(t.cursor_position, (0, 0));
}

#[test]
fn insert_line_below_and_above() {
    let mut t = Tab::from_lines(lines(&["a"]), None, "Plain Text".to_string());
    t.insert_line_below();
    assert_eq!(t.content, lines(&["a", ""]));
    assert_eq!(t.cursor_position, (0, 1));
    t.insert_line_above();
    assert_eq!(t.content, lines(&["a", "", ""]));
    assert_eq!(t.cursor_position, (0, 1));
}

#[test]
fn undo_redo_round_trip_restores_state() {
    let mut t = Tab::new();
    for c in "ab".chars() {
        t.insert_char(c);
    }
    t.insert_newline();
    t.insert_char('c');
    let content_s = t.content.clone();
    let cursor_s = t.cursor_position;
    let undo_len = t.undo_stack.len();
    let redo_len = t.redo_stack.len();
    t.undo();
    t.redo();
    assert_eq!(t.content, content_s);
    assert_eq!(t.cursor_position, cursor_s);
    assert_eq!(t.undo_stack.len(), undo_len);
    assert_eq!(t.redo_stack.len(), redo_len);
}

#[test]
fn undo_restores_pre_edit_state() {
    let mut t = Tab::new();
    t.insert_char('a');
    t.undo();
    assert_eq!(t.content, lines(&[""]));
    assert_eq!(t.cursor_position, (0, 0));
    assert_eq!(t.redo_stack.len(), 1);
}

#[test]
fn undo_on_empty_stack_is_noop() {
    let mut t = Tab::new();
    t.undo();
    assert_eq!(t.content, lines(&[""]));
    assert!(t.redo_stack.is_empty());
}

#[test]
fn edit_clears_redo_stack() {
    let mut t = Tab::new();
    t.insert_char('a');
    t.undo();
    assert_eq!(t.redo_stack.len(), 1);
    t.insert_char('b');
    assert!(t.redo_stack.is_empty());
}

#[test]
fn undo_history_is_bounded() {
    let mut t = Tab::new();
    for _ in 0..(HISTORY_LIMIT + 7) {
        t.insert_char('x');
    }
    assert_eq!(t.undo_stack.len(), HISTORY_LIMIT);
}

#[test]
fn cursor_wraps_at_line_boundaries() {
    let mut t = Tab::from_lines(lines(&["ab", "cd"]), None, "Plain Text".to_string());
    t.cursor_position = (2, 0);
    t.move_cursor_right();
    assert_eq!(t.cursor_position, (0, 1));
    t.move_cursor_left();
    assert_eq!(t.cursor_position, (2, 0));
}

#[test]
fn vertical_movement_clamps_column() {
    let mut t = Tab::from_lines(lines(&["long line", "ab"]), None, "Plain Text".to_string());
    t.cursor_position = (9, 0);
    t.move_cursor_down();
    assert_eq!(t.cursor_position, (2, 1));
    t.move_cursor_up();
    assert_eq!(t.cursor_position, (2, 0));
}

#[test]
fn home_and_end_move_within_line() {
    let mut t = Tab::from_lines(lines(&["abcdef"]), None, "Plain Text".to_string());
    t.cursor_position = (3, 0);
    t.move_cursor_end_of_line();
    assert_eq!(t.cursor_position, (6, 0));
    t.move_cursor_start_of_line();
    assert_eq!(t.cursor_position, (0, 0));
}

#[test]
fn adjust_horizontal_scroll_follows_cursor() {
    let mut t = Tab::new();
    t.cursor_position = (100, 0);
    t.adjust_horizontal_scroll();
    assert_eq!(t.horizontal_scroll, 100 - EDITOR_WIDTH + 1);
    t.cursor_position = (5, 0);
    t.adjust_horizontal_scroll();
    assert_eq!(t.horizontal_scroll, 5);
}

#[test]
fn page_down_and_up_move_by_visible_height() {
    let many: Vec<&str> = vec!["x"; 100];
    let mut t = Tab::from_lines(lines(&many), None, "Plain Text".to_string());
    t.page_down();
    assert_eq!(t.scroll_offset, EDITOR_HEIGHT);
    assert_eq!(t.cursor_position.1, 2 * EDITOR_HEIGHT - 1);
    t.page_up();
    assert_eq!(t.scroll_offset, 0);
    assert_eq!(t.cursor_position.1, 0);
}

#[test]
fn page_down_clamps_to_last_page() {
    let mut t = Tab::from_lines(lines(&["a", "b", "c"]), None, "Plain Text".to_string());
    t.page_down();
    assert_eq!(t.scroll_offset, 0);
    assert_eq!(t.cursor_position.1, 2);
}

#[test]
fn ensure_cursor_in_bounds_clamps() {
    let mut t = Tab::from_lines(lines(&["ab"]), None, "Plain Text".to_string());
    t.cursor_position = (10, 5);
    t.ensure_cursor_in_bounds();
    assert_eq!(t.cursor_position, (2, 0));
}

#[test]
fn ensure_cursor_visible_scrolls() {
    let many: Vec<&str> = vec!["x"; 100];
    let mut t = Tab::from_lines(lines(&many), None, "Plain Text".to_string());
    t.cursor_position = (0, 50);
    t.ensure_cursor_visible();
    assert_eq!(t.scroll_offset, 50 - EDITOR_HEIGHT + 1);
    t.cursor_position = (0, 3);
    t.ensure_cursor_visible();
    assert_eq!(t.scroll_offset, 3);
}

#[test]
fn from_lines_empty_text_gets_one_empty_line() {
    let t = Tab::from_lines(Vec::new(), Some("a.txt".to_string()), "Plain Text".to_string());
    assert_eq!(t.content, lines(&[""]));
    assert_eq!(t.current_file, Some("a.txt".to_string()));
}
