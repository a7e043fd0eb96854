use phantom::chord::{key_event_to_string, KeyCode, KeyInput};
use phantom::editor::{Editor, Effect, Mode};
use phantom::keymap::{has_prefix, lookup, Action, Keybindings};

fn chars(s: &str) -> Vec<char> {
    s.chars().collect()
}

fn lines(ls: &[&str]) -> Vec<Vec<char>> {
    ls.iter().map(|l| chars(l)).collect()
}

fn key(code: KeyCode) -> KeyInput {
    KeyInput { code, ctrl: false, alt: false, shift: false }
}

fn ctrl(c: char) -> KeyInput {
    KeyInput { code: KeyCode::Char(c), ctrl: true, alt: false, shift: false }
}

fn press(ed: &mut Editor, k: KeyInput) -> (bool, Option<Effect>) {
    ed.handle_key_event(k)
}

#[test]
fn chord_strings_are_canonical() {
    assert_eq!(key_event_to_string(key(KeyCode::Char('b'))), chars("b"));
    assert_eq!(key_event_to_string(ctrl('b')), chars("Ctrl+b"));
    assert_eq!(
        key_event_to_string(KeyInput { code: KeyCode::Char('x'), ctrl: true, alt: true, shift: true }),
        chars("Ctrl+Alt+Shift+x")
    );
    assert_eq!(key_event_to_string(key(KeyCode::F(5))), chars("F5"));
    assert_eq!(key_event_to_string(key(KeyCode::F(12))), chars("F12"));
    assert_eq!(key_event_to_string(key(KeyCode::Esc)), chars("Esc"));
    assert_eq!(key_event_to_string(key(KeyCode::BackTab)), chars("BackTab"));
}

#[test]
fn default_bindings_resolve() {
    let kb = Keybindings::default();
    assert_eq!(lookup(&kb.normal_mode, &chars("dd")), Some(Action::DeleteLine));
    assert_eq!(lookup(&kb.normal_mode, &chars("Ctrl+u")), Some(Action::Undo));
    assert_eq!(lookup(&kb.normal_mode, &chars("d")), None);
    assert!(has_prefix(&kb.normal_mode, &chars("d")));
    assert!(has_prefix(&kb.normal_mode, &chars("y")));
    assert!(!has_prefix(&kb.normal_mode, &chars("x")));
    assert_eq!(lookup(&kb.visual_mode, &chars("y")), Some(Action::YankSelection));
    assert_eq!(lookup(&kb.insert_mode, &chars("Esc")), Some(Action::ExitInsertMode));
}

#[test]
fn dd_deletes_current_line() {
    let mut ed = Editor::new();
    ed.tabs[0].content = lines(&["first", "second"]);
    let (q1, e1) = press(&mut ed, key(KeyCode::Char('d')));
    assert!(!q1);
    assert!(e1.is_none());
    assert_eq!(ed.pending_key, Some(chars("d")));
    assert_eq!(ed.tabs[0].content, lines(&["first", "second"]));
    let (q2, e2) = press(&mut ed, key(KeyCode::Char('d')));
    assert!(!q2);
    match e2 {
        Some(Effect::SetClipboard(text)) => assert_eq!(text, chars("first")),
        _ => panic!("expected the deleted line on the clipboard"),
    }
    assert_eq!(ed.tabs[0].content, lines(&["second"]));
    assert!(ed.pending_key.is_none());
}

#[test]
fn d_then_x_deletes_nothing_and_clears_pending() {
    let mut ed = Editor::new();
    ed.tabs[0].content = lines(&["first", "second"]);
    press(&mut ed, key(KeyCode::Char('d')));
    assert!(ed.pending_key.is_some());
    let (_, eff) = press(&mut ed, key(KeyCode::Char('x')));
    assert!(eff.is_none());
    assert_eq!(ed.tabs[0].content, lines(&["first", "second"]));
    assert!(ed.pending_key.is_none());
}

#[test]
fn typing_scenario_hello_enter_backspace() {
    let mut ed = Editor::new();
    assert_eq!(ed.tabs[0].content, lines(&[""]));
    assert_eq!(ed.tabs[0].cursor_position, (0, 0));
    press(&mut ed, key(KeyCode::Char('i')));
    assert!(matches!(ed.mode, Mode::Insert));
    for c in "hello".chars() {
        press(&mut ed, key(KeyCode::Char(c)));
    }
    assert_eq!(ed.tabs[0].content, lines(&["hello"]));
    assert_eq!(ed.tabs[0].cursor_position, (5, 0));
    press(&mut ed, key(KeyCode::Enter));
    assert_eq!(ed.tabs[0].content, lines(&["hello", ""]));
    assert_eq!(ed.tabs[0].cursor_position, (0, 1));
    press(&mut ed, key(KeyCode::Backspace));
    assert_eq!(ed.tabs[0].content, lines(&["hello"]));
    assert_eq!(ed.tabs[0].cursor_position, (5, 0));
}

#[test]
fn ctrl_q_quits() {
    let mut ed = Editor::new();
    let (quit, eff) = press(&mut ed, ctrl('q'));
    assert!(quit);
    assert!(eff.is_none());
}

#[test]
fn unbound_keys_are_inert() {
    let mut ed = Editor::new();
    ed.tabs[0].content = lines(&["abc"]);
    let before = ed.tabs[0].content.clone();
    let (quit, eff) = press(&mut ed, key(KeyCode::Char('x')));
    assert!(!quit);
    assert!(eff.is_none());
    assert_eq!(ed.tabs[0].content, before);
    assert!(ed.pending_key.is_none());
}

#[test]
fn function_keys_switch_tabs() {
    let mut ed = Editor::new();
    ed.insert_char('a');
    ed.new_tab();
    assert_eq!(ed.active_tab, 1);
    press(&mut ed, key(KeyCode::F(1)));
    assert_eq!(ed.active_tab, 0);
    press(&mut ed, key(KeyCode::F(2)));
    assert_eq!(ed.active_tab, 1);
}

#[test]
fn visual_mode_yank_and_delete() {
    let mut ed = Editor::new();
    ed.tabs[0].content = lines(&["abcdef"]);
    ed.tabs[0].cursor_position = (1, 0);
    press(&mut ed, key(KeyCode::Char('v')));
    assert!(matches!(ed.mode, Mode::Visual));
    assert_eq!(ed.visual_start, (1, 0));
    press(&mut ed, key(KeyCode::Right));
    press(&mut ed, key(KeyCode::Right));
    let (_, eff) = press(&mut ed, key(KeyCode::Char('y')));
    match eff {
        Some(Effect::SetClipboard(text)) => assert_eq!(text, chars("bcd")),
        _ => panic!("expected the selection on the clipboard"),
    }
    assert!(matches!(ed.mode, Mode::Normal));
    press(&mut ed, key(KeyCode::Char('v')));
    press(&mut ed, key(KeyCode::Right));
    let (_, eff2) = press(&mut ed, key(KeyCode::Char('d')));
    assert!(eff2.is_none());
    assert_eq!(ed.tabs[0].content, lines(&["abcf"]));
    assert!(matches!(ed.mode, Mode::Normal));
}

#[test]
fn command_q_quits_on_single_tab() {
    let mut ed = Editor::new();
    press(&mut ed, key(KeyCode::Char(':')));
    assert!(matches!(ed.mode, Mode::Command));
    press(&mut ed, key(KeyCode::Char('q')));
    let (quit, eff) = press(&mut ed, key(KeyCode::Enter));
    assert!(quit);
    assert!(eff.is_none());
    assert!(matches!(ed.mode, Mode::Normal));
}

#[test]
fn command_q_closes_one_of_two_tabs() {
    let mut ed = Editor::new();
    ed.insert_char('a');
    ed.new_tab();
    press(&mut ed, key(KeyCode::Char(':')));
    press(&mut ed, key(KeyCode::Char('q')));
    let (quit, _) = press(&mut ed, key(KeyCode::Enter));
    assert!(!quit);
    assert_eq!(ed.tabs.len(), 1);
}

#[test]
fn command_w_with_name_saves_as() {
    let mut ed = Editor::new();
    press(&mut ed, key(KeyCode::Char(':')));
    for c in "w out.txt".chars() {
        press(&mut ed, key(KeyCode::Char(c)));
    }
    let (quit, eff) = press(&mut ed, key(KeyCode::Enter));
    assert!(!quit);
    match eff {
        Some(Effect::SaveFile(p)) => assert_eq!(p, "out.txt"),
        _ => panic!("expected a save request"),
    }
    assert_eq!(ed.tabs[0].current_file, Some("out.txt".to_string()));
}

#[test]
fn command_w_without_any_name_reports() {
    let mut ed = Editor::new();
    press(&mut ed, key(KeyCode::Char(':')));
    press(&mut ed, key(KeyCode::Char('w')));
    let (quit, eff) = press(&mut ed, key(KeyCode::Enter));
    assert!(!quit);
    assert!(eff.is_none());
}

#[test]
fn command_e_requests_open() {
    let mut ed = Editor::new();
    press(&mut ed, key(KeyCode::Char(':')));
    for c in "e notes.md".chars() {
        press(&mut ed, key(KeyCode::Char(c)));
    }
    let (_, eff) = press(&mut ed, key(KeyCode::Enter));
    match eff {
        Some(Effect::OpenFile(p)) => assert_eq!(p, "notes.md"),
        _ => panic!("expected an open request"),
    }
}

#[test]
fn unknown_command_is_inert() {
    let mut ed = Editor::new();
    press(&mut ed, key(KeyCode::Char(':')));
    press(&mut ed, key(KeyCode::Char('z')));
    let (quit, eff) = press(&mut ed, key(KeyCode::Enter));
    assert!(!quit);
    assert!(eff.is_none());
    assert!(ed.command_buffer.is_empty());
}

#[test]
fn command_backspace_edits_the_line() {
    let mut ed = Editor::new();
    press(&mut ed, key(KeyCode::Char(':')));
    press(&mut ed, key(KeyCode::Char('a')));
    press(&mut ed, key(KeyCode::Char('b')));
    press(&mut ed, key(KeyCode::Backspace));
    assert_eq!(ed.command_buffer, chars("a"));
    press(&mut ed, key(KeyCode::Esc));
    assert!(matches!(ed.mode, Mode::Normal));
}

#[test]
fn paste_bindings_request_clipboard_reads() {
    let mut ed = Editor::new();
    let (_, eff) = press(&mut ed, key(KeyCode::Char('p')));
    assert!(matches!(eff, Some(Effect::ReadClipboardPasteAfter)));
    let (_, eff2) = press(&mut ed, ctrl('p'));
    assert!(matches!(eff2, Some(Effect::ReadClipboardInsert)));
}

#[test]
fn sidebar_toggle_requests_listing() {
    let mut ed = Editor::new();
    let (_, eff) = press(&mut ed, ctrl('e'));
    assert!(matches!(eff, Some(Effect::ListDirectory(None))));
    assert!(ed.show_sidebar);
    assert!(matches!(ed.mode, Mode::SidebarActive));
    let (_, eff2) = press(&mut ed, ctrl('e'));
    assert!(eff2.is_none());
    assert!(!ed.show_sidebar);
    assert!(matches!(ed.mode, Mode::Normal));
}

#[test]
fn search_finds_case_insensitively() {
    let mut ed = Editor::new();
    ed.tabs[0].content = lines(&["Hello World", "plain", "WORLD again"]);
    press(&mut ed, key(KeyCode::Char('/')));
    assert!(matches!(ed.mode, Mode::Search));
    for c in "world".chars() {
        press(&mut ed, key(KeyCode::Char(c)));
    }
    press(&mut ed, key(KeyCode::Enter));
    assert!(matches!(ed.mode, Mode::Normal));
    assert_eq!(ed.search_results, vec![(0, 6), (2, 0)]);
    assert_eq!(ed.tabs[0].cursor_position, (6, 0));
    press(&mut ed, key(KeyCode::Char('n')));
    assert_eq!(ed.tabs[0].cursor_position, (0, 2));
    press(&mut ed, key(KeyCode::Char('n')));
    assert_eq!(ed.tabs[0].cursor_position, (6, 0));
    press(&mut ed, key(KeyCode::Char('N')));
    assert_eq!(ed.tabs[0].cursor_position, (0, 2));
}

#[test]
fn uppercase_query_still_matches() {
    let mut ed = Editor::new();
    ed.tabs[0].content = lines(&["needle here"]);
    press(&mut ed, key(KeyCode::Char('/')));
    for c in "NEEDLE".chars() {
        press(&mut ed, key(KeyCode::Char(c)));
    }
    press(&mut ed, key(KeyCode::Enter));
    assert_eq!(ed.search_results, vec![(0, 0)]);
}

#[test]
fn file_browser_keys_drive_the_selector() {
    let mut ed = Editor::new();
    ed.mode = Mode::FileSelect;
    ed.apply_dir_listing(
        "/d".to_string(),
        vec![
            phantom::fileselect::FileEntry { path: "/d/sub".to_string(), is_dir: true },
            phantom::fileselect::FileEntry { path: "/d/f.txt".to_string(), is_dir: false },
        ],
    );
    press(&mut ed, key(KeyCode::Down));
    let (_, eff) = press(&mut ed, key(KeyCode::Enter));
    assert!(matches!(eff, Some(Effect::ListDirectory(Some(ref p))) if p == "/d/sub"));
    press(&mut ed, key(KeyCode::Down));
    press(&mut ed, key(KeyCode::Down));
    let (_, eff2) = press(&mut ed, key(KeyCode::Enter));
    match eff2 {
        Some(Effect::OpenFile(p)) => assert_eq!(p, "/d/f.txt"),
        _ => panic!("expected an open request"),
    }
    assert!(matches!(ed.mode, Mode::Normal));
    assert!(ed.file_selector.is_none());
}

#[test]
fn command_wq_saves_and_quits_last_tab() {
    let mut ed = Editor::new();
    ed.save_file(Some("kept.txt".to_string()));
    press(&mut ed, key(KeyCode::Char(':')));
    for c in "wq".chars() {
        press(&mut ed, key(KeyCode::Char(c)));
    }
    let (quit, eff) = press(&mut ed, key(KeyCode::Enter));
    assert!(quit);
    assert!(matches!(eff, Some(Effect::SaveFile(ref p)) if p == "kept.txt"));
}

#[test]
fn undo_binding_reverts_an_insert() {
    let mut ed = Editor::new();
    press(&mut ed, key(KeyCode::Char('i')));
    press(&mut ed, key(KeyCode::Char('z')));
    press(&mut ed, key(KeyCode::Esc));
    assert_eq!(ed.tabs[0].content, lines(&["z"]));
    press(&mut ed, ctrl('u'));
    assert_eq!(ed.tabs[0].content, lines(&[""]));
    press(&mut ed, ctrl('r'));
    assert_eq!(ed.tabs[0].content, lines(&["z"]));
}

#[test]
fn append_enters_insert_right_of_cursor() {
    let mut ed = Editor::new();
    ed.tabs[0].content = lines(&["ab"]);
    press(&mut ed, key(KeyCode::Char('a')));
    assert!(matches!(ed.mode, Mode::Insert));
    assert_eq!(ed.tabs[0].cursor_position, (1, 0));
}

#[test]
fn open_line_below_enters_insert_on_new_line() {
    let mut ed = Editor::new();
    ed.tabs[0].content = lines(&["ab"]);
    press(&mut ed, key(KeyCode::Char('o')));
    assert!(matches!(ed.mode, Mode::Insert));
    assert_eq!(ed.tabs[0].content, lines(&["ab", ""]));
    assert_eq!(ed.tabs[0].cursor_position, (0, 1));
}

#[test]
fn cursor_stays_in_bounds_after_every_step() {
    let mut ed = Editor::new();
    ed.tabs[0].content = lines(&["abc", "de"]);
    let keys = vec![
        key(KeyCode::End),
        key(KeyCode::Down),
        key(KeyCode::PageDown),
        key(KeyCode::PageUp),
        key(KeyCode::Char('d')),
        key(KeyCode::Char('d')),
        key(KeyCode::Up),
        key(KeyCode::Left),
    ];
    for k in keys {
        press(&mut ed, k);
        let t = &ed.tabs[ed.active_tab];
        assert!(!t.content.is_empty());
        assert!(t.cursor_position.1 < t.content.len());
        assert!(t.cursor_position.0 <= t.content[t.cursor_position.1].len());
    }
}

#[test]
fn escape_leaves_file_browser() {
    let mut ed = Editor::new();
    ed.mode = Mode::DirectoryNav;
    ed.apply_dir_listing("/d".to_string(), Vec::new());
    press(&mut ed, key(KeyCode::Esc));
    assert!(matches!(ed.mode, Mode::Normal));
    assert!(ed.file_selector.is_none());
}
