use phantom::buffer::Tab;
use phantom::editor::{Editor, Effect, Mode};
use phantom::fileselect::FileEntry;

fn chars(s: &str) -> Vec<char> {
    s.chars().collect()
}

fn lines(ls: &[&str]) -> Vec<Vec<char>> {
    ls.iter().map(|l| chars(l)).collect()
}

fn editor_with(ls: &[&str]) -> Editor {
    let mut ed = Editor::new();
    ed.tabs[0].content = lines(ls);
    ed
}

#[test]
fn new_editor_has_one_scratch_tab() {
    let ed = Editor::new();
    assert_eq!(ed.tabs.len(), 1);
    assert_eq!(ed.active_tab, 0);
    assert!(matches!(ed.mode, Mode::Normal));
    assert!(ed.pending_key.is_none());
    assert_eq!(ed.tabs[0].content, lines(&[""]));
}

#[test]
fn close_tab_on_single_tab_is_noop() {
    let mut ed = Editor::new();
    ed.close_tab();
    assert_eq!(ed.tabs.len(), 1);
    assert_eq!(ed.active_tab, 0);
}

#[test]
fn close_tab_on_two_tabs_leaves_one_valid() {
    let mut ed = Editor::new();
    ed.insert_char('a');
    ed.new_tab();
    assert_eq!(ed.tabs.len(), 2);
    assert_eq!(ed.active_tab, 1);
    ed.close_tab();
    assert_eq!(ed.tabs.len(), 1);
    assert!(ed.active_tab < ed.tabs.len());
}

#[test]
fn new_tab_reuses_untouched_scratch() {
    let mut ed = Editor::new();
    ed.new_tab();
    assert_eq!(ed.tabs.len(), 1);
    assert_eq!(ed.active_tab, 0);
}

#[test]
fn tab_cycling_wraps() {
    let mut ed = Editor::new();
    ed.insert_char('a');
    ed.new_tab();
    ed.next_tab();
    assert_eq!(ed.active_tab, 0);
    ed.previous_tab();
    assert_eq!(ed.active_tab, 1);
}

#[test]
fn switch_to_missing_tab_is_refused() {
    let mut ed = Editor::new();
    ed.switch_to_tab(5);
    assert_eq!(ed.active_tab, 0);
}

#[test]
fn delete_line_offers_text_to_clipboard() {
    let mut ed = editor_with(&["hello", "world"]);
    let eff = ed.delete_line();
    match eff {
        Effect::SetClipboard(text) => assert_eq!(text, chars("hello")),
        _ => panic!("expected a clipboard write"),
    }
    assert_eq!(ed.tabs[0].content, lines(&["world"]));
}

#[test]
fn yank_line_copies_without_removing() {
    let mut ed = editor_with(&["hello", "world"]);
    let eff = ed.yank_line();
    match eff {
        Effect::SetClipboard(text) => assert_eq!(text, chars("hello")),
        _ => panic!("expected a clipboard write"),
    }
    assert_eq!(ed.tabs[0].content, lines(&["hello", "world"]));
}

#[test]
fn selection_extraction_covers_whole_buffer() {
    let mut ed = editor_with(&["abc", "de", "fghi"]);
    ed.visual_start = (0, 0);
    ed.tabs[0].cursor_position = (4, 2);
    let eff = ed.copy_selection();
    match eff {
        Effect::SetClipboard(text) => assert_eq!(text, chars("abc\nde\nfghi")),
        _ => panic!("expected a clipboard write"),
    }
}

#[test]
fn selection_extraction_single_line_is_end_inclusive() {
    let mut ed = editor_with(&["abcdef"]);
    ed.visual_start = (1, 0);
    ed.tabs[0].cursor_position = (3, 0);
    let eff = ed.copy_selection();
    match eff {
        Effect::SetClipboard(text) => assert_eq!(text, chars("bcd")),
        _ => panic!("expected a clipboard write"),
    }
}

#[test]
fn mouse_selection_is_end_exclusive() {
    let mut ed = editor_with(&["abcd"]);
    // Screen column 1 and row 4 map to buffer position (0, 0).
    ed.start_mouse_selection(2, 4);
    ed.update_mouse_selection(4, 4);
    let eff = ed.copy_selection_to_clipboard();
    match eff {
        Some(Effect::SetClipboard(text)) => assert_eq!(text, chars("bc")),
        _ => panic!("expected a clipboard write"),
    }
    ed.end_mouse_selection();
    assert!(ed.mouse_selection_start.is_none());
    assert!(ed.mouse_selection_end.is_none());
}

#[test]
fn delete_selection_single_line() {
    let mut ed = editor_with(&["abcdef"]);
    ed.visual_start = (1, 0);
    ed.tabs[0].cursor_position = (3, 0);
    ed.delete_selection();
    assert_eq!(ed.tabs[0].content, lines(&["aef"]));
    assert_eq!(ed.tabs[0].cursor_position, (1, 0));
}

#[test]
fn delete_selection_multi_line_rejoins() {
    let mut ed = editor_with(&["abc", "de", "fghi"]);
    ed.visual_start = (1, 0);
    ed.tabs[0].cursor_position = (1, 2);
    ed.delete_selection();
    assert_eq!(ed.tabs[0].content, lines(&["ahi"]));
    assert_eq!(ed.tabs[0].cursor_position, (1, 0));
}

#[test]
fn paste_clipboard_single_line_inserts_at_cursor() {
    let mut ed = editor_with(&["hello"]);
    ed.tabs[0].cursor_position = (2, 0);
    ed.paste_clipboard_with(chars("XY"));
    assert_eq!(ed.tabs[0].content, lines(&["heXYllo"]));
    assert_eq!(ed.tabs[0].cursor_position, (4, 0));
}

#[test]
fn paste_clipboard_multi_line_splits_current_line() {
    let mut ed = editor_with(&["hello"]);
    ed.tabs[0].cursor_position = (2, 0);
    ed.paste_clipboard_with(chars("AB\nCD\nEF"));
    assert_eq!(ed.tabs[0].content, lines(&["heAB", "CD", "EFllo"]));
    assert_eq!(ed.tabs[0].cursor_position, (2, 2));
}

#[test]
fn paste_after_splices_lines_in() {
    let mut ed = editor_with(&["hello"]);
    ed.tabs[0].cursor_position = (2, 0);
    ed.paste_after_with(chars("XY"));
    assert_eq!(ed.tabs[0].content, lines(&["heXY", "llo"]));
    assert_eq!(ed.tabs[0].cursor_position, (0, 1));
}

#[test]
fn save_file_without_any_name_is_refused() {
    let mut ed = Editor::new();
    let eff = ed.save_file(None);
    assert!(eff.is_none());
}

#[test]
fn save_file_adopts_explicit_name() {
    let mut ed = Editor::new();
    let eff = ed.save_file(Some("out.txt".to_string()));
    match eff {
        Some(Effect::SaveFile(p)) => assert_eq!(p, "out.txt"),
        _ => panic!("expected a save request"),
    }
    assert_eq!(ed.tabs[0].current_file, Some("out.txt".to_string()));
    let eff2 = ed.save_file(None);
    match eff2 {
        Some(Effect::SaveFile(p)) => assert_eq!(p, "out.txt"),
        _ => panic!("expected a save request"),
    }
}

#[test]
fn apply_opened_file_reuses_scratch_tab() {
    let mut ed = Editor::new();
    ed.apply_opened_file("a.txt".to_string(), Some(lines(&["one", "two"])), "Plain Text".to_string());
    assert_eq!(ed.tabs.len(), 1);
    assert_eq!(ed.tabs[0].content, lines(&["one", "two"]));
    assert_eq!(ed.tabs[0].current_file, Some("a.txt".to_string()));
}

#[test]
fn apply_opened_file_appends_when_not_scratch() {
    let mut ed = Editor::new();
    ed.insert_char('z');
    ed.apply_opened_file("a.txt".to_string(), None, "Plain Text".to_string());
    assert_eq!(ed.tabs.len(), 2);
    assert_eq!(ed.active_tab, 1);
    assert_eq!(ed.tabs[1].content, lines(&[""]));
    assert_eq!(ed.tabs[1].current_file, Some("a.txt".to_string()));
}

#[test]
fn apply_dir_listing_opens_browser_with_parent_entry() {
    let mut ed = Editor::new();
    let listing = vec![
        FileEntry { path: "/d/file.rs".to_string(), is_dir: false },
        FileEntry { path: "/d/sub".to_string(), is_dir: true },
    ];
    ed.apply_dir_listing("/d".to_string(), listing);
    let sel = ed.file_selector.as_ref().expect("browser should be open");
    assert_eq!(sel.entries.len(), 3);
    assert_eq!(sel.entries[0].path, "/d/..");
    assert!(sel.entries[0].is_dir);
    assert_eq!(sel.selected_index, 0);
}

#[test]
fn toggle_minimap_needs_content() {
    let mut ed = Editor::new();
    ed.toggle_minimap();
    assert!(!ed.show_minimap);
    ed.insert_char('a');
    ed.toggle_minimap();
    assert!(ed.show_minimap);
    ed.toggle_minimap();
    assert!(!ed.show_minimap);
}

#[test]
fn minimap_click_jumps_to_mapped_line() {
    let many: Vec<String> = (0..100).map(|i| format!("line{}", i)).collect();
    let refs: Vec<&str> = many.iter().map(|s| s.as_str()).collect();
    let mut ed = editor_with(&refs);
    ed.set_minimap_mapping(vec![(0, 9), (10, 19), (20, 29)]);
    ed.handle_minimap_click(0, 2);
    assert_eq!(ed.tabs[0].cursor_position.1, 14);
}

#[test]
fn undo_redo_via_editor_restores_state() {
    let mut ed = editor_with(&["start"]);
    ed.tabs[0].cursor_position = (5, 0);
    ed.insert_char('!');
    let content_s = ed.tabs[0].content.clone();
    let cursor_s = ed.tabs[0].cursor_position;
    ed.undo();
    assert_eq!(ed.tabs[0].content, lines(&["start"]));
    ed.redo();
    assert_eq!(ed.tabs[0].content, content_s);
    assert_eq!(ed.tabs[0].cursor_position, cursor_s);
}

#[test]
fn mode_labels() {
    assert_eq!(Mode::Normal.label(), "Normal");
    assert_eq!(Mode::Insert.label(), "Insert");
    assert_eq!(Mode::SidebarActive.label(), "SidebarActive");
}

#[test]
fn fresh_tab_type_is_reexported_consistently() {
    let t = Tab::new();
    let mut ed = Editor::new();
    ed.tabs.push(t);
    assert_eq!(ed.tabs.len(), 2);
}
