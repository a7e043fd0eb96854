//! The key-dispatch state machine: a normalized chord is resolved
//! against the active mode's rules — compound-chord buffering in
//! Normal mode, fixed tables elsewhere — and the resolved action is
//! executed against the editor state.

use vstd::prelude::*;
use crate::buffer::{
    spec_backspace, spec_delete_char, spec_delete_line, spec_insert_char, spec_insert_line_above,
    spec_insert_line_below, spec_insert_newline, spec_move_cursor_down,
    spec_move_cursor_end_of_line, spec_move_cursor_left, spec_move_cursor_right,
    spec_move_cursor_start_of_line, spec_move_cursor_up, spec_page_down, spec_page_up, spec_redo,
    spec_save_state, spec_undo,
};
use crate::chord::{key_event_to_string, spec_chord_of, KeyCode, KeyInput};
use crate::editor::{
    active_of, effect_view, spec_close_tab, spec_new_tab, spec_next_tab, spec_previous_tab,
    spec_save_file, spec_switch_to_tab, spec_toggle_debug_menu, spec_toggle_minimap, with_active,
    Editor, EditorView, Effect, EffectView, Mode,
};
use crate::fileselect::{SelectorOutcome, SelectorView};
use crate::keymap::{has_prefix, lookup, spec_has_prefix, spec_lookup, Action};
use crate::search::{
    spec_next_search_result, spec_perform_search, spec_previous_search_result,
};
use crate::selection::{norm_pair, spec_delete_selection, spec_selection_text};
use crate::text::{chars_eq, chars_of, starts_with};

verus! {

/// One dispatch step's outcome: the editor afterwards, whether the
/// user asked to quit, and the request (if any) handed to the
/// surrounding application.
#[verifier::ext_equal]
pub ghost struct Step {
    pub ed: EditorView,
    pub quit: bool,
    pub effect: Option<EffectView>,
}

/// What toggling the sidebar does: opening it asks the application
/// for a directory listing and focuses the browser; closing it
/// returns to Normal mode.
pub open spec fn spec_toggle_sidebar(e: EditorView) -> (EditorView, Option<EffectView>) {
    if !e.show_sidebar {
        (
            EditorView { show_sidebar: true, mode: Mode::SidebarActive, ..e },
            Some(EffectView::ListDirectory(None)),
        )
    } else {
        (EditorView { show_sidebar: false, mode: Mode::Normal, ..e }, None)
    }
}

/// What entering directory navigation does: a listing is requested
/// and the mode changes.
pub open spec fn spec_enter_directory_nav(e: EditorView) -> (EditorView, Option<EffectView>) {
    (EditorView { mode: Mode::DirectoryNav, ..e }, Some(EffectView::ListDirectory(None)))
}

/// The cursor of the active tab, as a (column, line) pair.
pub open spec fn active_cursor(e: EditorView) -> (nat, nat) {
    (active_of(e).snap.col, active_of(e).snap.line)
}

/// What each named action does, and the request it raises.
pub open spec fn spec_execute_action(e: EditorView, a: Action) -> (EditorView, Option<EffectView>) {
    match a {
        Action::EnterInsertMode => (EditorView { mode: Mode::Insert, ..e }, None),
        Action::Append => {
            let e1 = EditorView { mode: Mode::Insert, ..e };
            (with_active(e1, spec_move_cursor_right(active_of(e1))), None)
        },
        Action::OpenLineBelow => (
            EditorView { mode: Mode::Insert, ..with_active(e, spec_insert_line_below(active_of(e))) },
            None,
        ),
        Action::OpenLineAbove => (
            EditorView { mode: Mode::Insert, ..with_active(e, spec_insert_line_above(active_of(e))) },
            None,
        ),
        Action::DeleteLine => (
            with_active(e, spec_delete_line(active_of(e))),
            Some(EffectView::SetClipboard(active_of(e).snap.lines[active_of(e).snap.line as int])),
        ),
        Action::YankLine => (
            with_active(e, spec_save_state(active_of(e))),
            Some(EffectView::SetClipboard(active_of(e).snap.lines[active_of(e).snap.line as int])),
        ),
        Action::PasteAfter => (e, Some(EffectView::ReadClipboardPasteAfter)),
        Action::EnterVisualMode => (
            EditorView { mode: Mode::Visual, visual_start: active_cursor(e), ..e },
            None,
        ),
        Action::EnterCommandMode => (
            EditorView { mode: Mode::Command, command: Seq::<char>::empty(), ..e },
            None,
        ),
        Action::ToggleDebugMenu => (spec_toggle_debug_menu(e), None),
        Action::EnterDirectoryNavMode => spec_enter_directory_nav(e),
        Action::EnterSearchMode => (
            EditorView {
                mode: Mode::Search,
                search_query: Seq::<char>::empty(),
                search_results: Seq::<(nat, nat)>::empty(),
                search_index: 0,
                ..e
            },
            None,
        ),
        Action::NextSearchResult => (spec_next_search_result(e), None),
        Action::PreviousSearchResult => (spec_previous_search_result(e), None),
        Action::CopySelection => (
            e,
            Some(
                EffectView::SetClipboard(
                    spec_selection_text(
                        active_of(e).snap.lines,
                        norm_pair(e.visual_start, active_cursor(e)).0,
                        norm_pair(e.visual_start, active_cursor(e)).1,
                        1,
                    ),
                ),
            ),
        ),
        Action::PasteClipboard => (e, Some(EffectView::ReadClipboardInsert)),
        Action::Undo => (with_active(e, spec_undo(active_of(e))), None),
        Action::Redo => (with_active(e, spec_redo(active_of(e))), None),
        Action::ToggleSidebar => spec_toggle_sidebar(e),
        Action::NextTab => (spec_next_tab(e), None),
        Action::PreviousTab => (spec_previous_tab(e), None),
        Action::SwitchToTab(n) => (spec_switch_to_tab(e, n as nat), None),
        Action::NewTab => (spec_new_tab(e), None),
        Action::CloseTab => (spec_close_tab(e), None),
        Action::ToggleMinimap => (spec_toggle_minimap(e), None),
        _ => (e, None),
    }
}

/// Resolution of a single chord in Normal mode, after any compound
/// chord has been tried: a bound action fires; a chord that is a
/// prefix of some binding is buffered; anything else falls through to
/// the built-in cursor motions.
pub open spec fn spec_normal_single(e: EditorView, key: KeyInput) -> (
    EditorView,
    Option<EffectView>,
) {
    let chord = spec_chord_of(key);
    match spec_lookup(e.keymap.normal, chord) {
        Some(a) => spec_execute_action(e, a),
        None => if spec_has_prefix(e.keymap.normal, chord) {
            (EditorView { pending: Some(chord), ..e }, None)
        } else {
            let ed = match key.code {
                KeyCode::Left => with_active(e, spec_move_cursor_left(active_of(e))),
                KeyCode::Down => with_active(e, spec_move_cursor_down(active_of(e))),
                KeyCode::Up => with_active(e, spec_move_cursor_up(active_of(e))),
                KeyCode::Right => with_active(e, spec_move_cursor_right(active_of(e))),
                KeyCode::Home => with_active(e, spec_move_cursor_start_of_line(active_of(e))),
                KeyCode::End => with_active(e, spec_move_cursor_end_of_line(active_of(e))),
                KeyCode::PageUp => with_active(e, spec_page_up(active_of(e))),
                KeyCode::PageDown => with_active(e, spec_page_down(active_of(e))),
                KeyCode::Tab => spec_next_tab(e),
                KeyCode::BackTab => spec_previous_tab(e),
                _ => e,
            };
            (ed, None)
        },
    }
}

/// What a keystroke does in Normal mode: a buffered key first tries
/// to complete a compound chord; the buffer is cleared either way,
/// and on no compound match the key is resolved on its own.
pub open spec fn spec_handle_normal_mode(e: EditorView, key: KeyInput) -> (
    EditorView,
    Option<EffectView>,
) {
    let chord = spec_chord_of(key);
    match e.pending {
        Some(p) => {
            let e0 = EditorView { pending: None, ..e };
            match spec_lookup(e.keymap.normal, p + chord) {
                Some(a) => spec_execute_action(e0, a),
                None => spec_normal_single(e0, key),
            }
        },
        None => spec_normal_single(e, key),
    }
}

/// What a keystroke does in Insert mode: printable characters are
/// inserted, the editing keys edit, Escape leaves.
pub open spec fn spec_handle_insert_mode(e: EditorView, key: KeyInput) -> EditorView {
    match key.code {
        KeyCode::Esc => EditorView { mode: Mode::Normal, ..e },
        KeyCode::Enter => with_active(e, spec_insert_newline(active_of(e))),
        KeyCode::Backspace => with_active(e, spec_backspace(active_of(e))),
        KeyCode::Delete => with_active(e, spec_delete_char(active_of(e))),
        KeyCode::Left => with_active(e, spec_move_cursor_left(active_of(e))),
        KeyCode::Down => with_active(e, spec_move_cursor_down(active_of(e))),
        KeyCode::Up => with_active(e, spec_move_cursor_up(active_of(e))),
        KeyCode::Right => with_active(e, spec_move_cursor_right(active_of(e))),
        KeyCode::Char(c) => with_active(e, spec_insert_char(active_of(e), c)),
        _ => e,
    }
}

/// What a keystroke does in Command mode: the command line is edited;
/// Enter asks for the command to run.
pub open spec fn spec_handle_command_mode(e: EditorView, key: KeyInput) -> (EditorView, bool) {
    match key.code {
        KeyCode::Enter => (e, true),
        KeyCode::Char(c) => (EditorView { command: e.command.push(c), ..e }, false),
        KeyCode::Backspace => (
            EditorView {
                command: if e.command.len() > 0 {
                    e.command.drop_last()
                } else {
                    e.command
                },
                ..e
            },
            false,
        ),
        KeyCode::Esc => (EditorView { mode: Mode::Normal, ..e }, false),
        _ => (e, false),
    }
}

/// What a keystroke does in Visual mode: movement extends the
/// selection, `y` yanks it, `d` deletes it, Escape leaves.
pub open spec fn spec_handle_visual_mode(e: EditorView, key: KeyInput) -> (
    EditorView,
    Option<EffectView>,
) {
    match key.code {
        KeyCode::Esc => (EditorView { mode: Mode::Normal, ..e }, None),
        KeyCode::Left => (with_active(e, spec_move_cursor_left(active_of(e))), None),
        KeyCode::Down => (with_active(e, spec_move_cursor_down(active_of(e))), None),
        KeyCode::Up => (with_active(e, spec_move_cursor_up(active_of(e))), None),
        KeyCode::Right => (with_active(e, spec_move_cursor_right(active_of(e))), None),
        KeyCode::Char(c) => if c == 'y' {
            (
                EditorView { mode: Mode::Normal, ..e },
                Some(
                    EffectView::SetClipboard(
                        spec_selection_text(
                            active_of(e).snap.lines,
                            norm_pair(e.visual_start, active_cursor(e)).0,
                            norm_pair(e.visual_start, active_cursor(e)).1,
                            1,
                        ),
                    ),
                ),
            )
        } else if c == 'd' {
            (
                EditorView {
                    mode: Mode::Normal,
                    ..with_active(
                        e,
                        spec_delete_selection(active_of(e), e.visual_start, active_cursor(e)),
                    )
                },
                None,
            )
        } else {
            (e, None)
        },
        _ => (e, None),
    }
}

/// What a keystroke does in Search mode: the query is edited; Enter
/// runs the search and returns to Normal mode.
pub open spec fn spec_handle_search_mode(e: EditorView, key: KeyInput) -> EditorView {
    match key.code {
        KeyCode::Esc => EditorView { mode: Mode::Normal, ..e },
        KeyCode::Enter => EditorView { mode: Mode::Normal, ..spec_perform_search(e) },
        KeyCode::Char(c) => EditorView { search_query: e.search_query.push(c), ..e },
        KeyCode::Backspace => EditorView {
            search_query: if e.search_query.len() > 0 {
                e.search_query.drop_last()
            } else {
                e.search_query
            },
            ..e
        },
        _ => e,
    }
}

/// The directory browser after its selection moved up.
pub open spec fn spec_selector_up(sel: SelectorView) -> SelectorView {
    SelectorView {
        selected: if sel.selected > 0 {
            (sel.selected - 1) as nat
        } else {
            0
        },
        ..sel
    }
}

/// The directory browser after its selection moved down.
pub open spec fn spec_selector_down(sel: SelectorView) -> SelectorView {
    SelectorView {
        selected: if sel.selected + 1 < sel.entries.len() {
            (sel.selected + 1) as nat
        } else {
            sel.selected
        },
        ..sel
    }
}

/// What a keystroke does while choosing a file: arrows move the
/// selection; Enter descends into a directory (asking for its
/// listing) or opens the chosen file and returns to Normal mode;
/// Escape abandons the browser.
pub open spec fn spec_handle_file_select_mode(e: EditorView, key: KeyInput) -> (
    EditorView,
    Option<EffectView>,
) {
    match e.selector {
        None => (e, None),
        Some(sel) => match key.code {
            KeyCode::Up => (EditorView { selector: Some(spec_selector_up(sel)), ..e }, None),
            KeyCode::Down => (EditorView { selector: Some(spec_selector_down(sel)), ..e }, None),
            KeyCode::Enter => if sel.selected < sel.entries.len() {
                let ent = sel.entries[sel.selected as int];
                if ent.1 {
                    (e, Some(EffectView::ListDirectory(Some(ent.0))))
                } else {
                    (
                        EditorView { mode: Mode::Normal, selector: None, ..e },
                        Some(EffectView::OpenFile(ent.0)),
                    )
                }
            } else {
                (e, None)
            },
            KeyCode::Esc => (EditorView { mode: Mode::Normal, selector: None, ..e }, None),
            _ => (e, None),
        },
    }
}

/// What a keystroke does while the sidebar browser has focus: the
/// sidebar toggle closes it; arrows move the selection; Enter
/// descends or opens the chosen file (closing the sidebar); Escape
/// closes the sidebar.
pub open spec fn spec_handle_sidebar_active_mode(e: EditorView, key: KeyInput) -> (
    EditorView,
    Option<EffectView>,
) {
    let chord = spec_chord_of(key);
    if spec_lookup(e.keymap.normal, chord) == Some(Action::ToggleSidebar) {
        spec_toggle_sidebar(e)
    } else {
        match e.selector {
            None => (e, None),
            Some(sel) => match key.code {
                KeyCode::Up => (EditorView { selector: Some(spec_selector_up(sel)), ..e }, None),
                KeyCode::Down => (
                    EditorView { selector: Some(spec_selector_down(sel)), ..e },
                    None,
                ),
                KeyCode::Enter => if sel.selected < sel.entries.len() {
                    let ent = sel.entries[sel.selected as int];
                    if ent.1 {
                        (e, Some(EffectView::ListDirectory(Some(ent.0))))
                    } else {
                        (
                            EditorView { show_sidebar: false, mode: Mode::Normal, ..e },
                            Some(EffectView::OpenFile(ent.0)),
                        )
                    }
                } else {
                    (e, None)
                },
                KeyCode::Esc => spec_toggle_sidebar(e),
                _ => (e, None),
            },
        }
    }
}

/// The first index at or after `i` where being a space equals
/// `want_space`, or the text's length.
pub open spec fn scan_spaces(s: Seq<char>, i: int, want_space: bool) -> int
    decreases s.len() - i,
{
    if i < 0 || i >= s.len() {
        s.len() as int
    } else if (s[i] == ' ') == want_space {
        i
    } else {
        scan_spaces(s, i + 1, want_space)
    }
}

/// The second whitespace-separated token of a command line, if any.
pub open spec fn spec_second_token(s: Seq<char>) -> Option<Seq<char>> {
    let first_end = scan_spaces(s, 0, true);
    let start = scan_spaces(s, first_end, false);
    let end = scan_spaces(s, start, true);
    if start >= s.len() {
        None
    } else {
        Some(s.subrange(start, end))
    }
}

/// What running the command line does. `q` closes the tab or quits
/// the editor; `w` saves, with or without an explicit name; `wq`
/// saves and then closes or quits; `e` asks for a file to be opened;
/// anything else is reported and ignored. The mode returns to Normal
/// and the command line clears first.
pub open spec fn spec_execute_command(e: EditorView) -> Step {
    let cmd = e.command;
    let e0 = EditorView { mode: Mode::Normal, command: Seq::<char>::empty(), ..e };
    if cmd == "q"@ {
        if e0.tabs.len() > 1 {
            Step { ed: spec_close_tab(e0), quit: false, effect: None }
        } else {
            Step { ed: e0, quit: true, effect: None }
        }
    } else if cmd == "w"@ {
        let r = spec_save_file(e0, None);
        Step { ed: r.0, quit: false, effect: r.1 }
    } else if cmd == "wq"@ {
        let r = spec_save_file(e0, None);
        if r.0.tabs.len() > 1 {
            Step { ed: spec_close_tab(r.0), quit: false, effect: r.1 }
        } else {
            Step { ed: r.0, quit: true, effect: r.1 }
        }
    } else if cmd.len() >= 2 && cmd.take(2) == "w "@ {
        match spec_second_token(cmd) {
            Some(name) => {
                let r = spec_save_file(e0, Some(name));
                Step { ed: r.0, quit: false, effect: r.1 }
            },
            None => Step { ed: e0, quit: false, effect: None },
        }
    } else if cmd.len() >= 2 && cmd.take(2) == "e "@ {
        match spec_second_token(cmd) {
            Some(name) => Step { ed: e0, quit: false, effect: Some(EffectView::OpenFile(name)) },
            None => Step { ed: e0, quit: false, effect: None },
        }
    } else {
        Step { ed: e0, quit: false, effect: None }
    }
}

/// What one keystroke does to the whole editor: the function-key tab
/// shortcuts and the quit chord come first, then the active mode's
/// own rules.
pub open spec fn spec_handle_key_event(e: EditorView, key: KeyInput) -> Step {
    let fkey: bool = match key.code {
        KeyCode::F(n) => 1 <= n <= 9 && (n - 1) < e.tabs.len(),
        _ => false,
    };
    if fkey {
        let n = key.code->F_0;
        Step { ed: spec_switch_to_tab(e, (n - 1) as nat), quit: false, effect: None }
    } else if key.ctrl && !key.alt && !key.shift && key.code == KeyCode::Char('q') {
        Step { ed: e, quit: true, effect: None }
    } else {
        match e.mode {
            Mode::Normal => {
                let r = spec_handle_normal_mode(e, key);
                Step { ed: r.0, quit: false, effect: r.1 }
            },
            Mode::Insert => Step {
                ed: spec_handle_insert_mode(e, key),
                quit: false,
                effect: None,
            },
            Mode::Command => {
                let r = spec_handle_command_mode(e, key);
                if r.1 {
                    spec_execute_command(r.0)
                } else {
                    Step { ed: r.0, quit: false, effect: None }
                }
            },
            Mode::Visual => {
                let r = spec_handle_visual_mode(e, key);
                Step { ed: r.0, quit: false, effect: r.1 }
            },
            Mode::FileSelect => {
                let r = spec_handle_file_select_mode(e, key);
                Step { ed: r.0, quit: false, effect: r.1 }
            },
            Mode::DirectoryNav => {
                let r = spec_handle_file_select_mode(e, key);
                Step { ed: r.0, quit: false, effect: r.1 }
            },
            Mode::Search => Step {
                ed: spec_handle_search_mode(e, key),
                quit: false,
                effect: None,
            },
            Mode::SidebarActive => {
                let r = spec_handle_sidebar_active_mode(e, key);
                Step { ed: r.0, quit: false, effect: r.1 }
            },
        }
    }
}

/// A key press with no modifiers.
pub open spec fn plain_key(c: char) -> KeyInput {
    KeyInput { code: KeyCode::Char(c), ctrl: false, alt: false, shift: false }
}

/// Chord resolution law. In Normal mode with the default bindings and
/// nothing pending, pressing `d` fires no action and only buffers the
/// key. A second `d` completes the compound chord and deletes the
/// current line, offering it to the clipboard. Pressing `x` instead
/// finds no compound binding: nothing is deleted and the pending key
/// is merely cleared.
pub proof fn lemma_chord_resolution(e: EditorView)
    requires
        e.mode == Mode::Normal,
        e.pending is None,
        e.keymap.normal == crate::keymap::spec_default_normal(),
    ensures
        spec_handle_key_event(e, plain_key('d')).ed == (EditorView {
            pending: Some(seq!['d']),
            ..e
        }),
        spec_handle_key_event(e, plain_key('d')).quit == false,
        spec_handle_key_event(e, plain_key('d')).effect is None,
        spec_handle_key_event(spec_handle_key_event(e, plain_key('d')).ed, plain_key('d')).ed
            == with_active(e, spec_delete_line(active_of(e))),
        spec_handle_key_event(spec_handle_key_event(e, plain_key('d')).ed, plain_key('d')).effect
            == Some(
            EffectView::SetClipboard(active_of(e).snap.lines[active_of(e).snap.line as int]),
        ),
        spec_handle_key_event(spec_handle_key_event(e, plain_key('d')).ed, plain_key('x')).ed == e,
        spec_handle_key_event(spec_handle_key_event(e, plain_key('d')).ed, plain_key('x')).effect
            is None,
{
    crate::keymap::lemma_default_chord_facts();
    let dk = plain_key('d');
    let xk = plain_key('x');
    assert(spec_chord_of(dk) =~= seq!['d']);
    assert(spec_chord_of(xk) =~= seq!['x']);
    let s1 = spec_handle_key_event(e, dk);
    assert(s1.ed =~~= (EditorView { pending: Some(seq!['d']), ..e }));
    let e0 = EditorView { pending: None, ..s1.ed };
    assert(e0 =~~= e);
    assert(seq!['d'] + seq!['d'] =~= seq!['d', 'd']);
    assert(seq!['d'] + seq!['x'] =~= seq!['d', 'x']);
    assert(spec_handle_key_event(s1.ed, dk).ed == with_active(e, spec_delete_line(active_of(e))));
    assert(spec_handle_key_event(s1.ed, xk).ed == e);
}

/// The second whitespace-separated token of a command line, if any.
fn second_token(cmd: &Vec<char>) -> (r: Option<Vec<char>>)
    ensures
        match r {
            Some(t) => spec_second_token(cmd@) == Some(t@),
            None => spec_second_token(cmd@) is None,
        },
{
    let n = cmd.len();
    let mut i: usize = 0;
    while i < n && cmd[i] != ' '
        invariant
            i <= n,
            n == cmd@.len(),
            scan_spaces(cmd@, 0, true) == scan_spaces(cmd@, i as int, true),
        decreases n - i,
    {
        i = i + 1;
    }
    proof {
        assert(scan_spaces(cmd@, 0, true) == i);
    }
    let mut j: usize = i;
    while j < n && cmd[j] == ' '
        invariant
            i <= j <= n,
            n == cmd@.len(),
            scan_spaces(cmd@, i as int, false) == scan_spaces(cmd@, j as int, false),
        decreases n - j,
    {
        j = j + 1;
    }
    proof {
        assert(scan_spaces(cmd@, i as int, false) == j);
    }
    let mut k: usize = j;
    while k < n && cmd[k] != ' '
        invariant
            j <= k <= n,
            n == cmd@.len(),
            scan_spaces(cmd@, j as int, true) == scan_spaces(cmd@, k as int, true),
        decreases n - k,
    {
        k = k + 1;
    }
    proof {
        assert(scan_spaces(cmd@, j as int, true) == k);
    }
    if j >= n {
        None
    } else {
        Some(crate::selection::slice_line(cmd, j, k))
    }
}

impl Editor {
    /// Toggle the sidebar browser: opening it asks the application
    /// for a directory listing; closing it returns to Normal mode.
    pub fn toggle_sidebar(&mut self) -> (r: Option<Effect>)
        requires
            old(self).wf(),
        ensures
            final(self)@ == spec_toggle_sidebar(old(self)@).0,
            effect_view(r) == spec_toggle_sidebar(old(self)@).1,
            final(self).wf(),
    {
        self.show_sidebar = !self.show_sidebar;
        if self.show_sidebar {
            self.mode = Mode::SidebarActive;
            proof {
                assert(self@ =~~= spec_toggle_sidebar(old(self)@).0);
            }
            Some(Effect::ListDirectory(None))
        } else {
            self.mode = Mode::Normal;
            proof {
                assert(self@ =~~= spec_toggle_sidebar(old(self)@).0);
            }
            None
        }
    }

    /// Enter directory navigation, asking the application for the
    /// listing to browse.
    pub fn enter_directory_nav_mode(&mut self) -> (r: Option<Effect>)
        requires
            old(self).wf(),
        ensures
            final(self)@ == spec_enter_directory_nav(old(self)@).0,
            effect_view(r) == spec_enter_directory_nav(old(self)@).1,
            final(self).wf(),
    {
        self.mode = Mode::DirectoryNav;
        proof {
            assert(self@ =~~= spec_enter_directory_nav(old(self)@).0);
        }
        Some(Effect::ListDirectory(None))
    }

    /// Perform one named action against the editor state, returning
    /// the request it raises, if any.
    pub fn execute_action(&mut self, action: Action) -> (r: Option<Effect>)
        requires
            old(self).wf(),
        ensures
            final(self)@ == spec_execute_action(old(self)@, action).0,
            effect_view(r) == spec_execute_action(old(self)@, action).1,
            final(self).wf(),
    {
        let eff: Option<Effect> = match action {
            Action::EnterInsertMode => {
                self.mode = Mode::Insert;
                None
            },
            Action::Append => {
                self.mode = Mode::Insert;
                self.move_cursor_right();
                None
            },
            Action::OpenLineBelow => {
                self.insert_line_below();
                self.mode = Mode::Insert;
                None
            },
            Action::OpenLineAbove => {
                self.insert_line_above();
                self.mode = Mode::Insert;
                None
            },
            Action::DeleteLine => Some(self.delete_line()),
            Action::YankLine => Some(self.yank_line()),
            Action::PasteAfter => Some(Effect::ReadClipboardPasteAfter),
            Action::EnterVisualMode => {
                self.mode = Mode::Visual;
                let idx = self.active_tab;
                self.visual_start = self.tabs[idx].cursor_position;
                None
            },
            Action::EnterCommandMode => {
                self.mode = Mode::Command;
                self.command_buffer = Vec::new();
                None
            },
            Action::ToggleDebugMenu => {
                self.toggle_debug_menu();
                None
            },
            Action::EnterDirectoryNavMode => self.enter_directory_nav_mode(),
            Action::EnterSearchMode => {
                self.enter_search_mode();
                None
            },
            Action::NextSearchResult => {
                self.next_search_result();
                None
            },
            Action::PreviousSearchResult => {
                self.previous_search_result();
                None
            },
            Action::CopySelection => Some(self.copy_selection()),
            Action::PasteClipboard => Some(Effect::ReadClipboardInsert),
            Action::Undo => {
                self.undo();
                None
            },
            Action::Redo => {
                self.redo();
                None
            },
            Action::ToggleSidebar => self.toggle_sidebar(),
            Action::NextTab => {
                self.next_tab();
                None
            },
            Action::PreviousTab => {
                self.previous_tab();
                None
            },
            Action::SwitchToTab(n) => {
                self.switch_to_tab(n);
                None
            },
            Action::NewTab => {
                self.new_tab();
                None
            },
            Action::CloseTab => {
                self.close_tab();
                None
            },
            Action::ToggleMinimap => {
                self.toggle_minimap();
                None
            },
            _ => None,
        };
        proof {
            assert(self@ =~~= spec_execute_action(old(self)@, action).0);
        }
        eff
    }

    /// Resolve one chord in Normal mode after any compound chord has
    /// been tried.
    fn normal_single(&mut self, key: KeyInput, chord: Vec<char>) -> (r: Option<Effect>)
        requires
            old(self).wf(),
            chord@ == spec_chord_of(key),
        ensures
            final(self)@ == spec_normal_single(old(self)@, key).0,
            effect_view(r) == spec_normal_single(old(self)@, key).1,
            final(self).wf(),
    {
        match lookup(&self.keybindings.normal_mode, &chord) {
            Some(a) => self.execute_action(a),
            None => {
                if has_prefix(&self.keybindings.normal_mode, &chord) {
                    self.pending_key = Some(chord);
                    proof {
                        assert(self@ =~~= spec_normal_single(old(self)@, key).0);
                    }
                    None
                } else {
                    match key.code {
                        KeyCode::Left => self.move_cursor_left(),
                        KeyCode::Down => self.move_cursor_down(),
                        KeyCode::Up => self.move_cursor_up(),
                        KeyCode::Right => self.move_cursor_right(),
                        KeyCode::Home => self.move_cursor_start_of_line(),
                        KeyCode::End => self.move_cursor_end_of_line(),
                        KeyCode::PageUp => self.page_up(),
                        KeyCode::PageDown => self.page_down(),
                        KeyCode::Tab => self.next_tab(),
                        KeyCode::BackTab => self.previous_tab(),
                        _ => {},
                    }
                    proof {
                        assert(self@ =~~= spec_normal_single(old(self)@, key).0);
                    }
                    None
                }
            },
        }
    }

    /// Dispatch one keystroke in Normal mode, buffering and resolving
    /// compound chords.
    pub fn handle_normal_mode(&mut self, key: KeyInput) -> (r: Option<Effect>)
        requires
            old(self).wf(),
        ensures
            final(self)@ == spec_handle_normal_mode(old(self)@, key).0,
            effect_view(r) == spec_handle_normal_mode(old(self)@, key).1,
            final(self).wf(),
    {
        let chord = key_event_to_string(key);
        let pending: Option<Vec<char>> = match &self.pending_key {
            Some(p) => Some(crate::buffer::clone_line(p)),
            None => None,
        };
        self.pending_key = None;
        match pending {
            Some(p) => {
                proof {
                    assert(self@ =~~= (EditorView { pending: None, ..old(self)@ }));
                }
                let mut combined = p;
                let mut chord_copy = crate::buffer::clone_line(&chord);
                combined.append(&mut chord_copy);
                match lookup(&self.keybindings.normal_mode, &combined) {
                    Some(a) => self.execute_action(a),
                    None => self.normal_single(key, chord),
                }
            },
            None => {
                proof {
                    assert(self@ =~~= old(self)@);
                }
                self.normal_single(key, chord)
            },
        }
    }

    /// Dispatch one keystroke in Insert mode.
    pub fn handle_insert_mode(&mut self, key: KeyInput)
        requires
            old(self).wf(),
        ensures
            final(self)@ == spec_handle_insert_mode(old(self)@, key),
            final(self).wf(),
    {
        match key.code {
            KeyCode::Esc => {
                self.mode = Mode::Normal;
            },
            KeyCode::Enter => self.insert_newline(),
            KeyCode::Backspace => self.backspace(),
            KeyCode::Delete => self.delete_char(),
            KeyCode::Left => self.move_cursor_left(),
            KeyCode::Down => self.move_cursor_down(),
            KeyCode::Up => self.move_cursor_up(),
            KeyCode::Right => self.move_cursor_right(),
            KeyCode::Char(c) => self.insert_char(c),
            _ => {},
        }
        proof {
            assert(self@ =~~= spec_handle_insert_mode(old(self)@, key));
        }
    }

    /// Dispatch one keystroke in Command mode; the result says
    /// whether the command line should now run.
    pub fn handle_command_mode(&mut self, key: KeyInput) -> (r: bool)
        requires
            old(self).wf(),
        ensures
            final(self)@ == spec_handle_command_mode(old(self)@, key).0,
            r == spec_handle_command_mode(old(self)@, key).1,
            final(self).wf(),
    {
        let mut run = false;
        match key.code {
            KeyCode::Enter => {
                run = true;
            },
            KeyCode::Char(c) => {
                self.command_buffer.push(c);
            },
            KeyCode::Backspace => {
                self.command_buffer.pop();
            },
            KeyCode::Esc => {
                self.mode = Mode::Normal;
            },
            _ => {},
        }
        proof {
            assert(self@ =~~= spec_handle_command_mode(old(self)@, key).0);
        }
        run
    }

    /// Dispatch one keystroke in Visual mode.
    pub fn handle_visual_mode(&mut self, key: KeyInput) -> (r: Option<Effect>)
        requires
            old(self).wf(),
        ensures
            final(self)@ == spec_handle_visual_mode(old(self)@, key).0,
            effect_view(r) == spec_handle_visual_mode(old(self)@, key).1,
            final(self).wf(),
    {
        let eff: Option<Effect> = match key.code {
            KeyCode::Esc => {
                self.mode = Mode::Normal;
                None
            },
            KeyCode::Left => {
                self.move_cursor_left();
                None
            },
            KeyCode::Down => {
                self.move_cursor_down();
                None
            },
            KeyCode::Up => {
                self.move_cursor_up();
                None
            },
            KeyCode::Right => {
                self.move_cursor_right();
                None
            },
            KeyCode::Char(c) => if c == 'y' {
                let e = self.copy_selection();
                self.mode = Mode::Normal;
                Some(e)
            } else if c == 'd' {
                self.delete_selection();
                self.mode = Mode::Normal;
                None
            } else {
                None
            },
            _ => None,
        };
        proof {
            assert(self@ =~~= spec_handle_visual_mode(old(self)@, key).0);
        }
        eff
    }

    /// Dispatch one keystroke in Search mode.
    pub fn handle_search_mode(&mut self, key: KeyInput)
        requires
            old(self).wf(),
        ensures
            final(self)@ == spec_handle_search_mode(old(self)@, key),
            final(self).wf(),
    {
        match key.code {
            KeyCode::Esc => {
                self.mode = Mode::Normal;
            },
            KeyCode::Enter => {
                self.perform_search();
                self.mode = Mode::Normal;
            },
            KeyCode::Char(c) => {
                self.search_query.push(c);
            },
            KeyCode::Backspace => {
                self.search_query.pop();
            },
            _ => {},
        }
        proof {
            assert(self@ =~~= spec_handle_search_mode(old(self)@, key));
        }
    }

    /// Dispatch one keystroke while choosing a file.
    pub fn handle_file_select_mode(&mut self, key: KeyInput) -> (r: Option<Effect>)
        requires
            old(self).wf(),
        ensures
            final(self)@ == spec_handle_file_select_mode(old(self)@, key).0,
            effect_view(r) == spec_handle_file_select_mode(old(self)@, key).1,
            final(self).wf(),
    {
        let eff: Option<Effect> = if self.file_selector.is_some() {
            match key.code {
                KeyCode::Up => {
                    match &mut self.file_selector {
                        Some(sel) => sel.up(),
                        None => {},
                    }
                    None
                },
                KeyCode::Down => {
                    match &mut self.file_selector {
                        Some(sel) => sel.down(),
                        None => {},
                    }
                    None
                },
                KeyCode::Enter => {
                    let outcome = match &self.file_selector {
                        Some(sel) => sel.enter(),
                        None => SelectorOutcome::Nothing,
                    };
                    match outcome {
                        SelectorOutcome::OpenDirectory(p) => Some(
                            Effect::ListDirectory(Some(p)),
                        ),
                        SelectorOutcome::OpenFile(p) => {
                            self.mode = Mode::Normal;
                            self.file_selector = None;
                            Some(Effect::OpenFile(p))
                        },
                        SelectorOutcome::Nothing => None,
                    }
                },
                KeyCode::Esc => {
                    self.mode = Mode::Normal;
                    self.file_selector = None;
                    None
                },
                _ => None,
            }
        } else {
            None
        };
        proof {
            assert(self@ =~~= spec_handle_file_select_mode(old(self)@, key).0);
        }
        eff
    }

    /// Dispatch one keystroke while the sidebar browser has focus.
    pub fn handle_sidebar_active_mode(&mut self, key: KeyInput) -> (r: Option<Effect>)
        requires
            old(self).wf(),
        ensures
            final(self)@ == spec_handle_sidebar_active_mode(old(self)@, key).0,
            effect_view(r) == spec_handle_sidebar_active_mode(old(self)@, key).1,
            final(self).wf(),
    {
        let chord = key_event_to_string(key);
        let bound = lookup(&self.keybindings.normal_mode, &chord);
        if let Some(Action::ToggleSidebar) = bound {
            return self.toggle_sidebar();
        }
        let eff: Option<Effect> = if self.file_selector.is_some() {
            match key.code {
                KeyCode::Up => {
                    match &mut self.file_selector {
                        Some(sel) => sel.up(),
                        None => {},
                    }
                    None
                },
                KeyCode::Down => {
                    match &mut self.file_selector {
                        Some(sel) => sel.down(),
                        None => {},
                    }
                    None
                },
                KeyCode::Enter => {
                    let outcome = match &self.file_selector {
                        Some(sel) => sel.enter(),
                        None => SelectorOutcome::Nothing,
                    };
                    match outcome {
                        SelectorOutcome::OpenDirectory(p) => Some(
                            Effect::ListDirectory(Some(p)),
                        ),
                        SelectorOutcome::OpenFile(p) => {
                            self.show_sidebar = false;
                            self.mode = Mode::Normal;
                            Some(Effect::OpenFile(p))
                        },
                        SelectorOutcome::Nothing => None,
                    }
                },
                KeyCode::Esc => {
                    let e = self.toggle_sidebar();
                    e
                },
                _ => None,
            }
        } else {
            None
        };
        proof {
            assert(self@ =~~= spec_handle_sidebar_active_mode(old(self)@, key).0);
        }
        eff
    }

    /// Run the typed command line: close or quit for `q`, save for
    /// `w` (with or without a name), save-then-close for `wq`, open
    /// for `e`; anything else is reported and ignored.
    pub fn execute_command(&mut self) -> (r: (bool, Option<Effect>))
        requires
            old(self).wf(),
        ensures
            final(self)@ == spec_execute_command(old(self)@).ed,
            r.0 == spec_execute_command(old(self)@).quit,
            effect_view(r.1) == spec_execute_command(old(self)@).effect,
            final(self).wf(),
    {
        let cmd = crate::buffer::clone_line(&self.command_buffer);
        self.mode = Mode::Normal;
        self.command_buffer = Vec::new();
        proof {
            assert(self@ =~~= (EditorView {
                mode: Mode::Normal,
                command: Seq::<char>::empty(),
                ..old(self)@
            }));
            reveal_strlit("w ");
            reveal_strlit("e ");
        }
        if chars_eq(&cmd, &chars_of("q")) {
            if self.tabs.len() > 1 {
                self.close_tab();
                (false, None)
            } else {
                (true, None)
            }
        } else if chars_eq(&cmd, &chars_of("w")) {
            let eff = self.save_file(None);
            (false, eff)
        } else if chars_eq(&cmd, &chars_of("wq")) {
            let eff = self.save_file(None);
            if self.tabs.len() > 1 {
                self.close_tab();
                (false, eff)
            } else {
                (true, eff)
            }
        } else if starts_with(&cmd, &chars_of("w ")) {
            match second_token(&cmd) {
                Some(name) => {
                    let eff = self.save_file(Some(crate::text::chars_to_string(&name)));
                    (false, eff)
                },
                None => {
                    self.note("No filename given");
                    (false, None)
                },
            }
        } else if starts_with(&cmd, &chars_of("e ")) {
            match second_token(&cmd) {
                Some(name) => (false, Some(Effect::OpenFile(crate::text::chars_to_string(&name)))),
                None => {
                    self.note("No filename given");
                    (false, None)
                },
            }
        } else {
            self.note("Unknown command");
            (false, None)
        }
    }

    /// Dispatch one keystroke: function keys switch tabs, the quit
    /// chord quits, and everything else goes to the active mode's own
    /// handler. The result says whether the editor should quit, and
    /// carries the request raised, if any.
    pub fn handle_key_event(&mut self, key: KeyInput) -> (r: (bool, Option<Effect>))
        requires
            old(self).wf(),
        ensures
            final(self)@ == spec_handle_key_event(old(self)@, key).ed,
            r.0 == spec_handle_key_event(old(self)@, key).quit,
            effect_view(r.1) == spec_handle_key_event(old(self)@, key).effect,
            final(self).wf(),
    {
        match key.code {
            KeyCode::F(n) => {
                if 1 <= n && n <= 9 {
                    let ti = (n - 1) as usize;
                    if ti < self.tabs.len() {
                        self.switch_to_tab(ti);
                        return (false, None);
                    }
                }
            },
            _ => {},
        }
        if key.ctrl && !key.alt && !key.shift {
            if let KeyCode::Char(c) = key.code {
                if c == 'q' {
                    return (true, None);
                }
            }
        }
        match self.mode {
            Mode::Normal => {
                let eff = self.handle_normal_mode(key);
                (false, eff)
            },
            Mode::Insert => {
                self.handle_insert_mode(key);
                (false, None)
            },
            Mode::Command => {
                let run = self.handle_command_mode(key);
                if run {
                    self.execute_command()
                } else {
                    (false, None)
                }
            },
            Mode::Visual => {
                let eff = self.handle_visual_mode(key);
                (false, eff)
            },
            Mode::FileSelect => {
                let eff = self.handle_file_select_mode(key);
                (false, eff)
            },
            Mode::DirectoryNav => {
                let eff = self.handle_file_select_mode(key);
                (false, eff)
            },
            Mode::Search => {
                self.handle_search_mode(key);
                (false, None)
            },
            Mode::SidebarActive => {
                let eff = self.handle_sidebar_active_mode(key);
                (false, eff)
            },
        }
    }
}

} // verus!
