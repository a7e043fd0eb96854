//! The editor itself: the tab collection, the mode state machine, and
//! the operations the key dispatcher invokes. Everything here is pure
//! state over plain values; whatever needs the outside world — the
//! system clipboard, the filesystem, the terminal — is requested from
//! the surrounding application through an [`Effect`].

use vstd::prelude::*;
use crate::buffer::{
    clone_line, opt_path_view, spec_backspace, spec_clamp_cursor, spec_delete_char,
    spec_delete_line, spec_ensure_cursor_in_bounds, spec_ensure_cursor_visible, spec_fresh_tab,
    spec_insert_char, spec_insert_line_above, spec_insert_line_below, spec_insert_newline,
    spec_move_cursor_down, spec_move_cursor_end_of_line, spec_move_cursor_left,
    spec_move_cursor_right, spec_move_cursor_start_of_line, spec_move_cursor_up, spec_page_down,
    spec_page_up, spec_redo, spec_save_state, spec_tab_from_lines, spec_undo, tab_view_wf, Snap,
    Tab, TabView, EDITOR_HEIGHT, EDITOR_WIDTH,
};
use crate::colors::ColorConfig;
use crate::fileselect::{FileEntry, FileSelector, SelectorView};
use crate::keymap::{Keybindings, KeymapView};

verus! {

/// The mutually exclusive top-level input-interpretation states; they
/// apply to the whole editor, not per tab.
#[derive(Clone, Copy, PartialEq, Eq, Structural, Debug)]
pub enum Mode {
    Normal,
    Insert,
    Command,
    Visual,
    FileSelect,
    DirectoryNav,
    Search,
    SidebarActive,
}

/// The display name of a mode.
pub open spec fn spec_mode_label(m: Mode) -> Seq<char> {
    match m {
        Mode::Normal => "Normal"@,
        Mode::Insert => "Insert"@,
        Mode::Command => "Command"@,
        Mode::Visual => "Visual"@,
        Mode::FileSelect => "FileSelect"@,
        Mode::DirectoryNav => "DirectoryNav"@,
        Mode::Search => "Search"@,
        Mode::SidebarActive => "SidebarActive"@,
    }
}

impl Mode {
    /// The display name of this mode.
    pub fn label(&self) -> (r: String)
        ensures
            r@ == spec_mode_label(*self),
    {
        match self {
            Mode::Normal => "Normal".to_owned(),
            Mode::Insert => "Insert".to_owned(),
            Mode::Command => "Command".to_owned(),
            Mode::Visual => "Visual".to_owned(),
            Mode::FileSelect => "FileSelect".to_owned(),
            Mode::DirectoryNav => "DirectoryNav".to_owned(),
            Mode::Search => "Search".to_owned(),
            Mode::SidebarActive => "SidebarActive".to_owned(),
        }
    }
}

/// A request to the surrounding application: the one place the editor
/// core touches the outside world. The application performs the
/// request and, where an answer is needed, hands the result back
/// through the matching `apply`/`with` method.
pub enum Effect {
    /// Write this text to the system clipboard.
    SetClipboard(Vec<char>),
    /// Read the clipboard and hand the text to
    /// [`Editor::paste_after_with`].
    ReadClipboardPasteAfter,
    /// Read the clipboard and hand the text to
    /// [`Editor::paste_clipboard_with`].
    ReadClipboardInsert,
    /// Write the active buffer to this path.
    SaveFile(String),
    /// Read this file and hand it to [`Editor::apply_opened_file`].
    OpenFile(String),
    /// List a directory — the named one, or one derived from the
    /// active file — and hand it to [`Editor::apply_dir_listing`].
    ListDirectory(Option<String>),
}

/// Mathematical image of an effect.
#[verifier::ext_equal]
pub ghost enum EffectView {
    SetClipboard(Seq<char>),
    ReadClipboardPasteAfter,
    ReadClipboardInsert,
    SaveFile(Seq<char>),
    OpenFile(Seq<char>),
    ListDirectory(Option<Seq<char>>),
}

impl View for Effect {
    type V = EffectView;

    open spec fn view(&self) -> EffectView {
        match self {
            Effect::SetClipboard(t) => EffectView::SetClipboard(t@),
            Effect::ReadClipboardPasteAfter => EffectView::ReadClipboardPasteAfter,
            Effect::ReadClipboardInsert => EffectView::ReadClipboardInsert,
            Effect::SaveFile(p) => EffectView::SaveFile(p@),
            Effect::OpenFile(p) => EffectView::OpenFile(p@),
            Effect::ListDirectory(d) => EffectView::ListDirectory(opt_path_view(*d)),
        }
    }
}

/// The image of an optional effect.
pub open spec fn effect_view(e: Option<Effect>) -> Option<EffectView> {
    match e {
        Some(x) => Some(x@),
        None => None,
    }
}

/// Mathematical image of the whole editor, except the debug message
/// log, whose wording is presentation detail.
#[verifier::ext_equal]
pub ghost struct EditorView {
    pub tabs: Seq<TabView>,
    pub active: nat,
    pub mode: Mode,
    pub pending: Option<Seq<char>>,
    pub command: Seq<char>,
    pub search_query: Seq<char>,
    pub search_results: Seq<(nat, nat)>,
    pub search_index: nat,
    pub visual_start: (nat, nat),
    pub keymap: KeymapView,
    pub colors: ColorConfig,
    pub show_sidebar: bool,
    pub sidebar_width: u16,
    pub show_debug: bool,
    pub show_minimap: bool,
    pub minimap_width: u16,
    pub selector: Option<SelectorView>,
    pub mouse_start: Option<(nat, nat)>,
    pub mouse_end: Option<(nat, nat)>,
    pub minimap_map: Seq<(nat, nat)>,
}

/// A cell position as a pair of naturals.
pub open spec fn pos_view(p: (usize, usize)) -> (nat, nat) {
    (p.0 as nat, p.1 as nat)
}

/// An optional cell position as a pair of naturals.
pub open spec fn opt_pos_view(p: Option<(usize, usize)>) -> Option<(nat, nat)> {
    match p {
        Some(q) => Some(pos_view(q)),
        None => None,
    }
}

/// The modal editor: the owned tabs, the mode machine's state, the
/// transient selection/search/command state, and the configuration.
pub struct Editor {
    pub tabs: Vec<Tab>,
    pub active_tab: usize,
    pub mode: Mode,
    pub debug_messages: Vec<String>,
    pub command_buffer: Vec<char>,
    pub search_query: Vec<char>,
    pub search_results: Vec<(usize, usize)>,
    pub current_search_index: usize,
    pub visual_start: (usize, usize),
    pub pending_key: Option<Vec<char>>,
    pub keybindings: Keybindings,
    pub color_config: ColorConfig,
    pub show_sidebar: bool,
    pub sidebar_width: u16,
    pub show_debug: bool,
    pub show_minimap: bool,
    pub minimap_width: u16,
    pub file_selector: Option<FileSelector>,
    pub mouse_selection_start: Option<(usize, usize)>,
    pub mouse_selection_end: Option<(usize, usize)>,
    pub minimap_line_mapping: Vec<(usize, usize)>,
}

impl View for Editor {
    type V = EditorView;

    open spec fn view(&self) -> EditorView {
        EditorView {
            tabs: self.tabs@.map_values(|t: Tab| t@),
            active: self.active_tab as nat,
            mode: self.mode,
            pending: match self.pending_key {
                Some(k) => Some(k@),
                None => None,
            },
            command: self.command_buffer@,
            search_query: self.search_query@,
            search_results: self.search_results@.map_values(|p: (usize, usize)| pos_view(p)),
            search_index: self.current_search_index as nat,
            visual_start: pos_view(self.visual_start),
            keymap: self.keybindings@,
            colors: self.color_config,
            show_sidebar: self.show_sidebar,
            sidebar_width: self.sidebar_width,
            show_debug: self.show_debug,
            show_minimap: self.show_minimap,
            minimap_width: self.minimap_width,
            selector: match self.file_selector {
                Some(f) => Some(f@),
                None => None,
            },
            mouse_start: opt_pos_view(self.mouse_selection_start),
            mouse_end: opt_pos_view(self.mouse_selection_end),
            minimap_map: self.minimap_line_mapping@.map_values(|p: (usize, usize)| pos_view(p)),
        }
    }
}

/// A tab collection is well formed when it is non-empty, the active
/// index names a tab, and every tab keeps the buffer invariant.
pub open spec fn tabs_wf(e: EditorView) -> bool {
    &&& 1 <= e.tabs.len()
    &&& e.active < e.tabs.len()
    &&& forall|i: int| 0 <= i < e.tabs.len() ==> tab_view_wf(#[trigger] e.tabs[i])
}

/// The active tab's image.
pub open spec fn active_of(e: EditorView) -> TabView {
    e.tabs[e.active as int]
}

/// The editor with its active tab replaced.
pub open spec fn with_active(e: EditorView, t: TabView) -> EditorView {
    EditorView { tabs: e.tabs.update(e.active as int, t), ..e }
}

/// What a brand-new editor looks like, for a given configuration.
pub open spec fn spec_editor_base(keymap: KeymapView, colors: ColorConfig) -> EditorView {
    EditorView {
        tabs: seq![spec_fresh_tab()],
        active: 0,
        mode: Mode::Normal,
        pending: None,
        command: Seq::<char>::empty(),
        search_query: Seq::<char>::empty(),
        search_results: Seq::<(nat, nat)>::empty(),
        search_index: 0,
        visual_start: (0, 0),
        keymap,
        colors,
        show_sidebar: false,
        sidebar_width: 30,
        show_debug: false,
        show_minimap: false,
        minimap_width: 30,
        selector: None,
        mouse_start: None,
        mouse_end: None,
        minimap_map: Seq::<(nat, nat)>::empty(),
    }
}

/// Which tab activating index `n` leaves active: `n` when it names a
/// tab, the old one otherwise.
pub open spec fn spec_switch_to_tab(e: EditorView, n: nat) -> EditorView {
    if n < e.tabs.len() {
        EditorView { active: n, ..e }
    } else {
        e
    }
}

/// What closing the active tab does: refused for the last tab;
/// otherwise the tab goes away and the active index is clamped back
/// into range.
pub open spec fn spec_close_tab(e: EditorView) -> EditorView {
    if e.tabs.len() > 1 {
        let tabs2 = e.tabs.remove(e.active as int);
        let active2 = if e.active >= tabs2.len() {
            (tabs2.len() - 1) as nat
        } else {
            e.active
        };
        EditorView { tabs: tabs2, active: active2, ..e }
    } else {
        e
    }
}

/// Whether the editor still holds nothing but the untouched scratch
/// tab, which a new or opened tab may reuse.
pub open spec fn sole_scratch_tab(e: EditorView) -> bool {
    &&& e.tabs.len() == 1
    &&& e.tabs[0].snap.lines == seq![Seq::<char>::empty()]
    &&& e.tabs[0].path is None
}

/// What opening a new tab does: the untouched scratch tab is reused;
/// otherwise a fresh tab is appended and activated.
pub open spec fn spec_new_tab(e: EditorView) -> EditorView {
    if sole_scratch_tab(e) {
        EditorView { active: 0, ..e }
    } else {
        EditorView { tabs: e.tabs.push(spec_fresh_tab()), active: e.tabs.len(), ..e }
    }
}

/// What cycling to the next tab does: one step right, wrapping.
pub open spec fn spec_next_tab(e: EditorView) -> EditorView {
    if e.tabs.len() > 0 {
        let active2: nat = if e.active + 1 == e.tabs.len() {
            0
        } else {
            (e.active + 1) as nat
        };
        EditorView { active: active2, ..e }
    } else {
        e
    }
}

/// What cycling to the previous tab does: one step left, wrapping.
pub open spec fn spec_previous_tab(e: EditorView) -> EditorView {
    if e.tabs.len() > 0 {
        let active2: nat = if e.active == 0 {
            (e.tabs.len() - 1) as nat
        } else {
            (e.active - 1) as nat
        };
        EditorView { active: active2, ..e }
    } else {
        e
    }
}

/// Addition capped at the largest machine value, for screen-to-buffer
/// coordinate mapping.
pub open spec fn sat_add(a: nat, b: nat) -> nat {
    if a + b > usize::MAX {
        usize::MAX as nat
    } else {
        (a + b) as nat
    }
}

/// Which buffer position a screen cell names: the text area starts at
/// screen column 1 and screen row 4, and the scroll offsets shift the
/// window.
pub open spec fn spec_screen_to_content(e: EditorView, x: nat, y: nat) -> (nat, nat) {
    let t = active_of(e);
    let row: nat = if y >= 4 {
        (y - 4) as nat
    } else {
        0
    };
    let col: nat = if x >= 1 {
        (x - 1) as nat
    } else {
        0
    };
    (sat_add(col, t.snap.hscroll), sat_add(row, t.snap.scroll))
}

/// What toggling the debug pane does.
pub open spec fn spec_toggle_debug_menu(e: EditorView) -> EditorView {
    EditorView { show_debug: !e.show_debug, ..e }
}

/// What toggling the minimap does: it only opens over a buffer with
/// some visible content, and always closes.
pub open spec fn spec_toggle_minimap(e: EditorView) -> EditorView {
    if !e.show_minimap {
        if exists|i: int|
            0 <= i < active_of(e).snap.lines.len() && (#[trigger] active_of(
                e,
            ).snap.lines[i]).len() > 0 {
            EditorView { show_minimap: true, ..e }
        } else {
            e
        }
    } else {
        EditorView { show_minimap: false, ..e }
    }
}

/// Whether a screen cell lies inside the minimap strip, which sits
/// just right of the text area and covers the mapped rows.
pub open spec fn spec_is_minimap_area(e: EditorView, x: nat, y: nat) -> bool {
    &&& x >= EDITOR_WIDTH
    &&& x < EDITOR_WIDTH + e.minimap_width
    &&& y >= 1
    &&& y <= 1 + e.minimap_map.len()
}

/// What clicking a minimap row does: the cursor jumps to the middle of
/// the row's line range, clamped into the buffer, and the viewport
/// centers on it.
pub open spec fn spec_handle_minimap_click(e: EditorView, y: nat) -> EditorView {
    let t = active_of(e);
    let ay: nat = if y >= 1 {
        (y - 1) as nat
    } else {
        0
    };
    if ay >= e.minimap_map.len() {
        e
    } else {
        let mid = (e.minimap_map[ay as int].0 + e.minimap_map[ay as int].1) / 2;
        let total = t.snap.lines.len();
        let line2: nat = if mid >= total {
            (total - 1) as nat
        } else {
            mid as nat
        };
        let half: nat = (EDITOR_HEIGHT / 2) as nat;
        let scroll2: nat = if line2 >= half {
            (line2 - half) as nat
        } else {
            0
        };
        let t2 = TabView {
            snap: spec_clamp_cursor(Snap { line: line2, scroll: scroll2, ..t.snap }),
            ..t
        };
        with_active(e, spec_ensure_cursor_visible(t2))
    }
}

/// The tab built for an opened path: the file's lines when it exists,
/// a fresh buffer carrying the path when it does not.
pub open spec fn spec_opened_tab(
    path: Seq<char>,
    lines: Option<Seq<Seq<char>>>,
    syntax: Seq<char>,
) -> TabView {
    match lines {
        Some(ls) => spec_tab_from_lines(ls, Some(path), syntax),
        None => spec_tab_from_lines(Seq::<Seq<char>>::empty(), Some(path), "Plain Text"@),
    }
}

/// What opening a file does to the tab collection: the untouched
/// scratch tab is replaced, otherwise the new tab is appended; either
/// way it becomes active.
pub open spec fn spec_apply_opened_file(
    e: EditorView,
    path: Seq<char>,
    lines: Option<Seq<Seq<char>>>,
    syntax: Seq<char>,
) -> EditorView {
    let t = spec_opened_tab(path, lines, syntax);
    if sole_scratch_tab(e) {
        EditorView { tabs: seq![t], active: 0, ..e }
    } else {
        EditorView { tabs: e.tabs.push(t), active: e.tabs.len(), ..e }
    }
}

/// The lines of an opened file, if it existed.
pub open spec fn opt_lines_view(lines: Option<Vec<Vec<char>>>) -> Option<Seq<Seq<char>>> {
    match lines {
        Some(ls) => Some(crate::buffer::lines_view(ls@)),
        None => None,
    }
}

/// What saving does: an explicit name is adopted as the buffer's file
/// association and written to; with none given the existing
/// association is used; with neither, saving is refused with a
/// report and no write happens.
pub open spec fn spec_save_file(e: EditorView, filename: Option<Seq<char>>) -> (
    EditorView,
    Option<EffectView>,
) {
    match filename {
        Some(p) => (
            with_active(e, TabView { path: Some(p), ..active_of(e) }),
            Some(EffectView::SaveFile(p)),
        ),
        None => match active_of(e).path {
            Some(p) => (e, Some(EffectView::SaveFile(p))),
            None => (e, None),
        },
    }
}

/// Tab lifecycle law: closing the only tab is refused outright, and
/// closing one of two tabs leaves exactly one tab with a valid active
/// index.
pub proof fn lemma_close_tab_lifecycle(e: EditorView)
    requires
        tabs_wf(e),
    ensures
        e.tabs.len() == 1 ==> spec_close_tab(e) == e,
        e.tabs.len() == 2 ==> spec_close_tab(e).tabs.len() == 1,
        e.tabs.len() > 1 ==> spec_close_tab(e).active < spec_close_tab(e).tabs.len(),
{
}

impl Editor {
    /// Everything the editor relies on between keystrokes: a well
    /// formed tab collection, and a well formed directory browser
    /// whenever one is open.
    pub open spec fn wf(&self) -> bool {
        &&& tabs_wf(self@)
        &&& match self.file_selector {
            Some(f) => f.wf(),
            None => true,
        }
        &&& (self@.search_results.len() == 0 ==> self@.search_index == 0)
        &&& (self@.search_results.len() > 0 ==> self@.search_index
            < self@.search_results.len())
    }

    /// A fresh editor around a given configuration: one scratch tab,
    /// Normal mode, nothing pending.
    pub fn with_config(keybindings: Keybindings, color_config: ColorConfig) -> (ed: Editor)
        ensures
            ed.wf(),
            ed@ == spec_editor_base(keybindings@, color_config),
    {
        let mut tabs: Vec<Tab> = Vec::new();
        tabs.push(Tab::new());
        let ed = Editor {
            tabs,
            active_tab: 0,
            mode: Mode::Normal,
            debug_messages: Vec::new(),
            command_buffer: Vec::new(),
            search_query: Vec::new(),
            search_results: Vec::new(),
            current_search_index: 0,
            visual_start: (0, 0),
            pending_key: None,
            keybindings,
            color_config,
            show_sidebar: false,
            sidebar_width: 30,
            show_debug: false,
            show_minimap: false,
            minimap_width: 30,
            file_selector: None,
            mouse_selection_start: None,
            mouse_selection_end: None,
            minimap_line_mapping: Vec::new(),
        };
        proof {
            assert(ed@ =~~= spec_editor_base(ed.keybindings@, ed.color_config));
        }
        ed
    }

    /// A fresh editor with the built-in keybindings and palette.
    pub fn new() -> (ed: Editor)
        ensures
            ed.wf(),
            ed@ == spec_editor_base(ed@.keymap, ed@.colors),
            ed@.keymap.normal == crate::keymap::spec_default_normal(),
            ed@.keymap.insert == crate::keymap::spec_default_insert(),
            ed@.keymap.visual == crate::keymap::spec_default_visual(),
            ed@.keymap.command == crate::keymap::spec_default_command(),
            ed@.keymap.file_select == crate::keymap::spec_default_file_select(),
            ed@.keymap.search == crate::keymap::spec_default_search(),
    {
        Editor::with_config(Keybindings::default(), ColorConfig::default())
    }

    /// Record a status line for the debug pane. The log's wording is
    /// presentation detail: it is not part of the editor's image.
    pub(crate) fn note(&mut self, text: &str)
        ensures
            final(self)@ == old(self)@,
            old(self).wf() ==> final(self).wf(),
    {
        self.debug_messages.push(text.to_owned());
        proof {
            assert(self@ =~~= old(self)@);
        }
    }

    /// Activate the tab at `tab_index` if it exists; otherwise report
    /// and leave everything unchanged.
    pub fn switch_to_tab(&mut self, tab_index: usize)
        requires
            old(self).wf(),
        ensures
            final(self)@ == spec_switch_to_tab(old(self)@, tab_index as nat),
            final(self).wf(),
    {
        if tab_index < self.tabs.len() {
            self.active_tab = tab_index;
            self.note("Switched tab");
        } else {
            self.note("No such tab");
        }
        proof {
            assert(self@ =~~= spec_switch_to_tab(old(self)@, tab_index as nat));
        }
    }

    /// Close the active tab; refused (a no-op) when it is the only
    /// one. The active index is clamped back into range.
    pub fn close_tab(&mut self)
        requires
            old(self).wf(),
        ensures
            final(self)@ == spec_close_tab(old(self)@),
            final(self).wf(),
    {
        if self.tabs.len() > 1 {
            self.tabs.remove(self.active_tab);
            if self.active_tab >= self.tabs.len() {
                self.active_tab = self.tabs.len() - 1;
            }
        }
        proof {
            assert(self@ =~~= spec_close_tab(old(self)@));
        }
    }

    /// Open a new tab: the untouched scratch tab is reused instead of
    /// duplicated; otherwise a fresh tab is appended and activated.
    pub fn new_tab(&mut self)
        requires
            old(self).wf(),
        ensures
            final(self)@ == spec_new_tab(old(self)@),
            final(self).wf(),
    {
        let reuse = self.tabs.len() == 1 && self.tabs[0].content.len() == 1
            && self.tabs[0].content[0].len() == 0 && self.tabs[0].current_file.is_none();
        if reuse {
            self.active_tab = 0;
            proof {
                assert(old(self)@.tabs[0].snap.lines =~~= seq![Seq::<char>::empty()]);
                assert(sole_scratch_tab(old(self)@));
            }
        } else {
            self.tabs.push(Tab::new());
            self.active_tab = self.tabs.len() - 1;
            proof {
                assert(!sole_scratch_tab(old(self)@)) by {
                    if sole_scratch_tab(old(self)@) {
                        assert(old(self)@.tabs[0].snap.lines[0].len() == 0);
                    }
                }
            }
        }
        proof {
            assert(self@ =~~= spec_new_tab(old(self)@));
        }
    }

    /// Cycle to the next tab, wrapping at the end.
    pub fn next_tab(&mut self)
        requires
            old(self).wf(),
        ensures
            final(self)@ == spec_next_tab(old(self)@),
            final(self).wf(),
    {
        if self.tabs.len() > 0 {
            if self.active_tab + 1 == self.tabs.len() {
                self.active_tab = 0;
            } else {
                self.active_tab = self.active_tab + 1;
            }
        }
        proof {
            assert(self@ =~~= spec_next_tab(old(self)@));
        }
    }

    /// Cycle to the previous tab, wrapping at the start.
    pub fn previous_tab(&mut self)
        requires
            old(self).wf(),
        ensures
            final(self)@ == spec_previous_tab(old(self)@),
            final(self).wf(),
    {
        if self.tabs.len() > 0 {
            if self.active_tab == 0 {
                self.active_tab = self.tabs.len() - 1;
            } else {
                self.active_tab = self.active_tab - 1;
            }
        }
        proof {
            assert(self@ =~~= spec_previous_tab(old(self)@));
        }
    }

    /// Insert a character into the active buffer at its cursor.
    pub fn insert_char(&mut self, c: char)
        requires
            old(self).wf(),
        ensures
            final(self)@ == with_active(old(self)@, spec_insert_char(active_of(old(self)@), c)),
            final(self).wf(),
    {
        let idx = self.active_tab;
        let t = &mut self.tabs[idx];
        t.insert_char(c);
        proof {
            assert(self@ =~~= with_active(old(self)@, spec_insert_char(active_of(old(self)@), c)));
        }
    }

    /// Split the active buffer's current line at its cursor.
    pub fn insert_newline(&mut self)
        requires
            old(self).wf(),
        ensures
            final(self)@ == with_active(old(self)@, spec_insert_newline(active_of(old(self)@))),
            final(self).wf(),
    {
        let idx = self.active_tab;
        let t = &mut self.tabs[idx];
        t.insert_newline();
        proof {
            assert(self@ =~~= with_active(old(self)@, spec_insert_newline(active_of(old(self)@))));
        }
    }

    /// Backspace in the active buffer.
    pub fn backspace(&mut self)
        requires
            old(self).wf(),
        ensures
            final(self)@ == with_active(old(self)@, spec_backspace(active_of(old(self)@))),
            final(self).wf(),
    {
        let idx = self.active_tab;
        let t = &mut self.tabs[idx];
        t.backspace();
        proof {
            assert(self@ =~~= with_active(old(self)@, spec_backspace(active_of(old(self)@))));
        }
    }

    /// Forward-delete in the active buffer.
    pub fn delete_char(&mut self)
        requires
            old(self).wf(),
        ensures
            final(self)@ == with_active(old(self)@, spec_delete_char(active_of(old(self)@))),
            final(self).wf(),
    {
        let idx = self.active_tab;
        let t = &mut self.tabs[idx];
        t.delete_char();
        proof {
            assert(self@ =~~= with_active(old(self)@, spec_delete_char(active_of(old(self)@))));
        }
    }

    /// Delete the active buffer's current line; the removed text is
    /// offered to the clipboard through the returned effect.
    pub fn delete_line(&mut self) -> (eff: Effect)
        requires
            old(self).wf(),
        ensures
            final(self)@ == with_active(old(self)@, spec_delete_line(active_of(old(self)@))),
            final(self).wf(),
            eff@ == EffectView::SetClipboard(
                active_of(old(self)@).snap.lines[active_of(old(self)@).snap.line as int],
            ),
    {
        let idx = self.active_tab;
        let t = &mut self.tabs[idx];
        let removed = t.delete_line();
        proof {
            assert(self@ =~~= with_active(old(self)@, spec_delete_line(active_of(old(self)@))));
        }
        Effect::SetClipboard(removed)
    }

    /// Copy the active buffer's current line to the clipboard; a
    /// history snapshot is recorded, as for every yank.
    pub fn yank_line(&mut self) -> (eff: Effect)
        requires
            old(self).wf(),
        ensures
            final(self)@ == with_active(old(self)@, spec_save_state(active_of(old(self)@))),
            final(self).wf(),
            eff@ == EffectView::SetClipboard(
                active_of(old(self)@).snap.lines[active_of(old(self)@).snap.line as int],
            ),
    {
        let idx = self.active_tab;
        let t = &mut self.tabs[idx];
        let line = clone_line(&t.content[t.cursor_position.1]);
        t.save_state();
        proof {
            assert(self@ =~~= with_active(old(self)@, spec_save_state(active_of(old(self)@))));
        }
        Effect::SetClipboard(line)
    }

    /// Open an empty line below the active buffer's cursor.
    pub fn insert_line_below(&mut self)
        requires
            old(self).wf(),
        ensures
            final(self)@ == with_active(
                old(self)@,
                spec_insert_line_below(active_of(old(self)@)),
            ),
            final(self).wf(),
    {
        let idx = self.active_tab;
        let t = &mut self.tabs[idx];
        t.insert_line_below();
        proof {
            assert(self@ =~~= with_active(
                old(self)@,
                spec_insert_line_below(active_of(old(self)@)),
            ));
        }
    }

    /// Open an empty line above the active buffer's cursor.
    pub fn insert_line_above(&mut self)
        requires
            old(self).wf(),
        ensures
            final(self)@ == with_active(
                old(self)@,
                spec_insert_line_above(active_of(old(self)@)),
            ),
            final(self).wf(),
    {
        let idx = self.active_tab;
        let t = &mut self.tabs[idx];
        t.insert_line_above();
        proof {
            assert(self@ =~~= with_active(
                old(self)@,
                spec_insert_line_above(active_of(old(self)@)),
            ));
        }
    }

    /// Record the active buffer's state for undo.
    pub fn save_state(&mut self)
        requires
            old(self).wf(),
        ensures
            final(self)@ == with_active(old(self)@, spec_save_state(active_of(old(self)@))),
            final(self).wf(),
    {
        let idx = self.active_tab;
        let t = &mut self.tabs[idx];
        t.save_state();
        proof {
            assert(self@ =~~= with_active(old(self)@, spec_save_state(active_of(old(self)@))));
        }
    }

    /// Undo the most recent mutation of the active buffer.
    pub fn undo(&mut self)
        requires
            old(self).wf(),
        ensures
            final(self)@ == with_active(old(self)@, spec_undo(active_of(old(self)@))),
            final(self).wf(),
    {
        let idx = self.active_tab;
        let t = &mut self.tabs[idx];
        t.undo();
        proof {
            assert(self@ =~~= with_active(old(self)@, spec_undo(active_of(old(self)@))));
        }
    }

    /// Redo the most recently undone mutation of the active buffer.
    pub fn redo(&mut self)
        requires
            old(self).wf(),
        ensures
            final(self)@ == with_active(old(self)@, spec_redo(active_of(old(self)@))),
            final(self).wf(),
    {
        let idx = self.active_tab;
        let t = &mut self.tabs[idx];
        t.redo();
        proof {
            assert(self@ =~~= with_active(old(self)@, spec_redo(active_of(old(self)@))));
        }
    }

    /// Move the active buffer's cursor up one line.
    pub fn move_cursor_up(&mut self)
        requires
            old(self).wf(),
        ensures
            final(self)@ == with_active(old(self)@, spec_move_cursor_up(active_of(old(self)@))),
            final(self).wf(),
    {
        let idx = self.active_tab;
        let t = &mut self.tabs[idx];
        t.move_cursor_up();
        proof {
            assert(self@ =~~= with_active(old(self)@, spec_move_cursor_up(active_of(old(self)@))));
        }
    }

    /// Move the active buffer's cursor down one line.
    pub fn move_cursor_down(&mut self)
        requires
            old(self).wf(),
        ensures
            final(self)@ == with_active(old(self)@, spec_move_cursor_down(active_of(old(self)@))),
            final(self).wf(),
    {
        let idx = self.active_tab;
        let t = &mut self.tabs[idx];
        t.move_cursor_down();
        proof {
            assert(self@ =~~= with_active(
                old(self)@,
                spec_move_cursor_down(active_of(old(self)@)),
            ));
        }
    }

    /// Move the active buffer's cursor left one column, wrapping at
    /// line starts.
    pub fn move_cursor_left(&mut self)
        requires
            old(self).wf(),
        ensures
            final(self)@ == with_active(old(self)@, spec_move_cursor_left(active_of(old(self)@))),
            final(self).wf(),
    {
        let idx = self.active_tab;
        let t = &mut self.tabs[idx];
        t.move_cursor_left();
        proof {
            assert(self@ =~~= with_active(
                old(self)@,
                spec_move_cursor_left(active_of(old(self)@)),
            ));
        }
    }

    /// Move the active buffer's cursor right one column, wrapping at
    /// line ends.
    pub fn move_cursor_right(&mut self)
        requires
            old(self).wf(),
        ensures
            final(self)@ == with_active(old(self)@, spec_move_cursor_right(active_of(old(self)@))),
            final(self).wf(),
    {
        let idx = self.active_tab;
        let t = &mut self.tabs[idx];
        t.move_cursor_right();
        proof {
            assert(self@ =~~= with_active(
                old(self)@,
                spec_move_cursor_right(active_of(old(self)@)),
            ));
        }
    }

    /// Move the active buffer's cursor to the start of its line.
    pub fn move_cursor_start_of_line(&mut self)
        requires
            old(self).wf(),
        ensures
            final(self)@ == with_active(
                old(self)@,
                spec_move_cursor_start_of_line(active_of(old(self)@)),
            ),
            final(self).wf(),
    {
        let idx = self.active_tab;
        let t = &mut self.tabs[idx];
        t.move_cursor_start_of_line();
        proof {
            assert(self@ =~~= with_active(
                old(self)@,
                spec_move_cursor_start_of_line(active_of(old(self)@)),
            ));
        }
    }

    /// Move the active buffer's cursor to the end of its line.
    pub fn move_cursor_end_of_line(&mut self)
        requires
            old(self).wf(),
        ensures
            final(self)@ == with_active(
                old(self)@,
                spec_move_cursor_end_of_line(active_of(old(self)@)),
            ),
            final(self).wf(),
    {
        let idx = self.active_tab;
        let t = &mut self.tabs[idx];
        t.move_cursor_end_of_line();
        proof {
            assert(self@ =~~= with_active(
                old(self)@,
                spec_move_cursor_end_of_line(active_of(old(self)@)),
            ));
        }
    }

    /// Page the active buffer up one screen.
    pub fn page_up(&mut self)
        requires
            old(self).wf(),
        ensures
            final(self)@ == with_active(old(self)@, spec_page_up(active_of(old(self)@))),
            final(self).wf(),
    {
        let idx = self.active_tab;
        let t = &mut self.tabs[idx];
        t.page_up();
        proof {
            assert(self@ =~~= with_active(old(self)@, spec_page_up(active_of(old(self)@))));
        }
    }

    /// Page the active buffer down one screen.
    pub fn page_down(&mut self)
        requires
            old(self).wf(),
        ensures
            final(self)@ == with_active(old(self)@, spec_page_down(active_of(old(self)@))),
            final(self).wf(),
    {
        let idx = self.active_tab;
        let t = &mut self.tabs[idx];
        t.page_down();
        proof {
            assert(self@ =~~= with_active(old(self)@, spec_page_down(active_of(old(self)@))));
        }
    }

    /// Clamp the active buffer's cursor back into bounds.
    pub fn ensure_cursor_in_bounds(&mut self)
        requires
            old(self).wf(),
        ensures
            final(self)@ == with_active(
                old(self)@,
                spec_ensure_cursor_in_bounds(active_of(old(self)@)),
            ),
            final(self).wf(),
    {
        let idx = self.active_tab;
        let t = &mut self.tabs[idx];
        t.ensure_cursor_in_bounds();
        proof {
            assert(self@ =~~= with_active(
                old(self)@,
                spec_ensure_cursor_in_bounds(active_of(old(self)@)),
            ));
        }
    }

    /// Scroll the active buffer so its cursor is visible.
    pub fn ensure_cursor_visible(&mut self)
        requires
            old(self).wf(),
        ensures
            final(self)@ == with_active(
                old(self)@,
                spec_ensure_cursor_visible(active_of(old(self)@)),
            ),
            final(self).wf(),
    {
        let idx = self.active_tab;
        let t = &mut self.tabs[idx];
        t.ensure_cursor_visible();
        proof {
            assert(self@ =~~= with_active(
                old(self)@,
                spec_ensure_cursor_visible(active_of(old(self)@)),
            ));
        }
    }

    /// Toggle the debug pane.
    pub fn toggle_debug_menu(&mut self)
        requires
            old(self).wf(),
        ensures
            final(self)@ == spec_toggle_debug_menu(old(self)@),
            final(self).wf(),
    {
        self.show_debug = !self.show_debug;
        if self.show_debug {
            self.note("Debug menu shown");
        } else {
            self.note("Debug menu hidden");
        }
        proof {
            assert(self@ =~~= spec_toggle_debug_menu(old(self)@));
        }
    }

    /// Toggle the minimap; it only opens over a buffer with some
    /// visible content.
    pub fn toggle_minimap(&mut self)
        requires
            old(self).wf(),
        ensures
            final(self)@ == spec_toggle_minimap(old(self)@),
            final(self).wf(),
    {
        if !self.show_minimap {
            let idx = self.active_tab;
            let n = self.tabs[idx].content.len();
            let mut has_content = false;
            let mut i: usize = 0;
            while i < n
                invariant
                    idx == old(self)@.active,
                    *self == *old(self),
                    self.wf(),
                    n == self.tabs[idx as int]@.snap.lines.len(),
                    i <= n,
                    has_content == exists|j: int|
                        0 <= j < i && (#[trigger] active_of(self@).snap.lines[j]).len() > 0,
                decreases n - i,
            {
                if self.tabs[idx].content[i].len() > 0 {
                    has_content = true;
                    proof {
                        assert((active_of(self@).snap.lines[i as int]).len() > 0);
                    }
                } else {
                    proof {
                        assert((active_of(self@).snap.lines[i as int]).len() == 0);
                    }
                }
                i = i + 1;
            }
            if has_content {
                self.show_minimap = true;
                self.note("Minimap shown");
            } else {
                self.note("Cannot show minimap: no content");
            }
        } else {
            self.show_minimap = false;
            self.note("Minimap hidden");
        }
        proof {
            assert(self@ =~~= spec_toggle_minimap(old(self)@));
        }
    }

    /// Whether a screen cell lies inside the minimap strip.
    pub fn is_minimap_area(&self, x: u16, y: u16) -> (r: bool)
        ensures
            r == spec_is_minimap_area(self@, x as nat, y as nat),
    {
        let xu = x as usize;
        let yu = y as usize;
        let w = self.minimap_width as usize;
        xu >= EDITOR_WIDTH && xu - EDITOR_WIDTH < w && yu >= 1 && yu - 1
            <= self.minimap_line_mapping.len()
    }

    /// Jump the cursor to the buffer line a minimap click names, and
    /// center the viewport on it.
    pub fn handle_minimap_click(&mut self, _x: u16, y: u16)
        requires
            old(self).wf(),
        ensures
            final(self)@ == spec_handle_minimap_click(old(self)@, y as nat),
            final(self).wf(),
    {
        let adjusted_y = if y >= 1 {
            (y - 1) as usize
        } else {
            0
        };
        if adjusted_y >= self.minimap_line_mapping.len() {
            proof {
                assert(self@ =~~= spec_handle_minimap_click(old(self)@, y as nat));
            }
            return ;
        }
        let (min_line, max_line) = self.minimap_line_mapping[adjusted_y];
        let clicked = min_line / 2 + max_line / 2 + (min_line % 2 + max_line % 2) / 2;
        proof {
            assert(clicked == (min_line + max_line) / 2) by {
                assert(min_line == 2 * (min_line / 2) + min_line % 2);
                assert(max_line == 2 * (max_line / 2) + max_line % 2);
            }
        }
        let idx = self.active_tab;
        let t = &mut self.tabs[idx];
        let total = t.content.len();
        let new_line = if clicked >= total {
            total - 1
        } else {
            clicked
        };
        let half = EDITOR_HEIGHT / 2;
        let new_scroll = if new_line >= half {
            new_line - half
        } else {
            0
        };
        t.cursor_position.1 = new_line;
        t.scroll_offset = new_scroll;
        let line_len = t.content[new_line].len();
        if t.cursor_position.0 > line_len {
            t.cursor_position.0 = line_len;
        }
        t.ensure_cursor_visible();
        proof {
            assert(self@ =~~= spec_handle_minimap_click(old(self)@, y as nat));
        }
    }

    /// Adopt the minimap row-to-lines mapping the renderer computed,
    /// so later minimap clicks can be resolved.
    pub fn set_minimap_mapping(&mut self, mapping: Vec<(usize, usize)>)
        ensures
            final(self)@ == (EditorView {
                minimap_map: mapping@.map_values(|p: (usize, usize)| pos_view(p)),
                ..old(self)@
            }),
            old(self).wf() ==> final(self).wf(),
    {
        self.minimap_line_mapping = mapping;
        proof {
            assert(self@ =~~= (EditorView {
                minimap_map: self.minimap_line_mapping@.map_values(|p: (usize, usize)| pos_view(p)),
                ..old(self)@
            }));
        }
    }

    /// Which buffer position a screen cell names.
    pub fn screen_to_content_position(&self, x: usize, y: usize) -> (r: (usize, usize))
        requires
            self.wf(),
        ensures
            pos_view(r) == spec_screen_to_content(self@, x as nat, y as nat),
    {
        let idx = self.active_tab;
        let t = &self.tabs[idx];
        let row = if y >= 4 {
            y - 4
        } else {
            0
        };
        let col = if x >= 1 {
            x - 1
        } else {
            0
        };
        let line = if row <= usize::MAX - t.scroll_offset {
            row + t.scroll_offset
        } else {
            usize::MAX
        };
        let column = if col <= usize::MAX - t.horizontal_scroll {
            col + t.horizontal_scroll
        } else {
            usize::MAX
        };
        (column, line)
    }

    /// Begin a mouse-drag selection at a screen cell.
    pub fn start_mouse_selection(&mut self, x: usize, y: usize)
        requires
            old(self).wf(),
        ensures
            final(self)@ == (EditorView {
                mouse_start: Some(spec_screen_to_content(old(self)@, x as nat, y as nat)),
                mouse_end: Some(spec_screen_to_content(old(self)@, x as nat, y as nat)),
                ..old(self)@
            }),
            final(self).wf(),
    {
        let position = self.screen_to_content_position(x, y);
        self.mouse_selection_start = Some(position);
        self.mouse_selection_end = Some(position);
        proof {
            assert(self@ =~~= (EditorView {
                mouse_start: Some(spec_screen_to_content(old(self)@, x as nat, y as nat)),
                mouse_end: Some(spec_screen_to_content(old(self)@, x as nat, y as nat)),
                ..old(self)@
            }));
        }
    }

    /// Extend the mouse-drag selection to a screen cell.
    pub fn update_mouse_selection(&mut self, x: usize, y: usize)
        requires
            old(self).wf(),
        ensures
            final(self)@ == (EditorView {
                mouse_end: Some(spec_screen_to_content(old(self)@, x as nat, y as nat)),
                ..old(self)@
            }),
            final(self).wf(),
    {
        let position = self.screen_to_content_position(x, y);
        self.mouse_selection_end = Some(position);
        proof {
            assert(self@ =~~= (EditorView {
                mouse_end: Some(spec_screen_to_content(old(self)@, x as nat, y as nat)),
                ..old(self)@
            }));
        }
    }

    /// Drop the mouse-drag selection.
    pub fn end_mouse_selection(&mut self)
        ensures
            final(self)@ == (EditorView { mouse_start: None, mouse_end: None, ..old(self)@ }),
            old(self).wf() ==> final(self).wf(),
    {
        self.mouse_selection_start = None;
        self.mouse_selection_end = None;
        proof {
            assert(self@ =~~= (EditorView { mouse_start: None, mouse_end: None, ..old(self)@ }));
        }
    }

    /// Take in a file the application read (or found missing) and open
    /// it as the active tab, reusing the untouched scratch tab.
    pub fn apply_opened_file(&mut self, path: String, lines: Option<Vec<Vec<char>>>, syntax: String)
        requires
            old(self).wf(),
        ensures
            final(self)@ == spec_apply_opened_file(
                old(self)@,
                path@,
                opt_lines_view(lines),
                syntax@,
            ),
            final(self).wf(),
    {
        let ghost target = spec_apply_opened_file(old(self)@, path@, opt_lines_view(lines), syntax@);
        let new_tab = match lines {
            Some(ls) => Tab::from_lines(ls, Some(path), syntax),
            None => Tab::from_lines(Vec::new(), Some(path), "Plain Text".to_owned()),
        };
        let reuse = self.tabs.len() == 1 && self.tabs[0].content.len() == 1
            && self.tabs[0].content[0].len() == 0 && self.tabs[0].current_file.is_none();
        if reuse {
            self.tabs[0] = new_tab;
            self.active_tab = 0;
            proof {
                assert(old(self)@.tabs[0].snap.lines =~~= seq![Seq::<char>::empty()]);
                assert(sole_scratch_tab(old(self)@));
            }
        } else {
            self.tabs.push(new_tab);
            self.active_tab = self.tabs.len() - 1;
            proof {
                assert(!sole_scratch_tab(old(self)@)) by {
                    if sole_scratch_tab(old(self)@) {
                        assert(old(self)@.tabs[0].snap.lines[0].len() == 0);
                    }
                }
            }
        }
        self.note("File opened");
        proof {
            assert(self@ =~~= target);
        }
    }

    /// Take in a directory listing the application read and open the
    /// directory browser over it.
    pub fn apply_dir_listing(&mut self, dir: String, listing: Vec<FileEntry>)
        requires
            old(self).wf(),
        ensures
            final(self)@ == (EditorView {
                selector: Some(
                    SelectorView {
                        dir: dir@,
                        entries: seq![(dir@ + "/.."@, true)] + crate::fileselect::entries_view(
                            listing@,
                        ),
                        selected: 0,
                        parent: Some(0nat),
                    },
                ),
                ..old(self)@
            }),
            final(self).wf(),
    {
        let ghost target = EditorView {
            selector: Some(
                SelectorView {
                    dir: dir@,
                    entries: seq![(dir@ + "/.."@, true)] + crate::fileselect::entries_view(
                        listing@,
                    ),
                    selected: 0,
                    parent: Some(0nat),
                },
            ),
            ..old(self)@
        };
        let selector = FileSelector::from_entries(dir, listing);
        self.file_selector = Some(selector);
        proof {
            assert(self@ =~~= target);
        }
    }

    /// Save the active buffer: adopt an explicit file name, or fall
    /// back to the buffer's association; with neither the save is
    /// refused with a report. The write itself is the returned
    /// effect.
    pub fn save_file(&mut self, filename: Option<String>) -> (r: Option<Effect>)
        requires
            old(self).wf(),
        ensures
            final(self)@ == spec_save_file(old(self)@, opt_path_view(filename)).0,
            effect_view(r) == spec_save_file(old(self)@, opt_path_view(filename)).1,
            final(self).wf(),
    {
        let ghost target = spec_save_file(old(self)@, opt_path_view(filename));
        let idx = self.active_tab;
        let r = match filename {
            Some(name) => {
                let t = &mut self.tabs[idx];
                t.current_file = Some(name.clone());
                Some(Effect::SaveFile(name))
            },
            None => {
                let existing = match &self.tabs[idx].current_file {
                    Some(p) => Some(p.clone()),
                    None => None,
                };
                match existing {
                    Some(p) => Some(Effect::SaveFile(p)),
                    None => {
                        self.note("No filename specified");
                        None
                    },
                }
            },
        };
        if r.is_some() {
            self.note("File saved");
        }
        proof {
            assert(self@ =~~= target.0);
        }
        r
    }

    /// The fixed height of the text area.
    pub fn get_editor_height(&self) -> (r: usize)
        ensures
            r == EDITOR_HEIGHT,
    {
        EDITOR_HEIGHT
    }

    /// The fixed width of the text area.
    pub fn get_editor_width(&self) -> (r: usize)
        ensures
            r == EDITOR_WIDTH,
    {
        EDITOR_WIDTH
    }
}

} // verus!
