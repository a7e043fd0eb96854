//! Per-tab text buffer: a never-empty sequence of lines, a cursor, a
//! viewport (vertical and horizontal scroll offsets), and the bounded
//! undo/redo history of whole-buffer snapshots.

use vstd::prelude::*;
use std::collections::VecDeque;

verus! {

/// Most entries the undo history keeps; the oldest entry past this is evicted.
pub const HISTORY_LIMIT: usize = 100;

/// Width in columns of the text area; horizontal scrolling keeps the cursor inside it.
pub const EDITOR_WIDTH: usize = 80;

/// Height in rows of the text area; vertical scrolling keeps the cursor inside it.
pub const EDITOR_HEIGHT: usize = 24;

/// The text of a buffer as a sequence of line sequences.
pub open spec fn lines_view(content: Seq<Vec<char>>) -> Seq<Seq<char>> {
    content.map_values(|l: Vec<char>| l@)
}

/// The text of an optional file path.
pub open spec fn opt_path_view(p: Option<String>) -> Option<Seq<char>> {
    match p {
        Some(q) => Some(q@),
        None => None,
    }
}

/// Mathematical image of one buffer state: the text, the cursor
/// (column, line) and the two scroll offsets.
#[verifier::ext_equal]
pub ghost struct Snap {
    pub lines: Seq<Seq<char>>,
    pub col: nat,
    pub line: nat,
    pub scroll: nat,
    pub hscroll: nat,
}

/// A buffer state is well formed when it has at least one line, the
/// cursor names an existing line, and the cursor column is at most that
/// line's length.
pub open spec fn snap_wf(s: Snap) -> bool {
    &&& 1 <= s.lines.len()
    &&& s.line < s.lines.len()
    &&& s.col <= s.lines[s.line as int].len()
}

/// One undo/redo entry: a full copy of the buffer's text, cursor and
/// viewport at a point in time, immutable once pushed.
pub struct EditOperation {
    pub content: Vec<Vec<char>>,
    pub cursor_position: (usize, usize),
    pub scroll_offset: usize,
    pub horizontal_scroll: usize,
}

impl View for EditOperation {
    type V = Snap;

    open spec fn view(&self) -> Snap {
        Snap {
            lines: lines_view(self.content@),
            col: self.cursor_position.0 as nat,
            line: self.cursor_position.1 as nat,
            scroll: self.scroll_offset as nat,
            hscroll: self.horizontal_scroll as nat,
        }
    }
}

/// Mathematical image of a whole tab: the live state, the file
/// association, the detected syntax label, and both history stacks
/// (most recent first).
#[verifier::ext_equal]
pub ghost struct TabView {
    pub snap: Snap,
    pub path: Option<Seq<char>>,
    pub syntax: Seq<char>,
    pub undo: Seq<Snap>,
    pub redo: Seq<Snap>,
}

/// One editing tab: its text buffer, cursor, viewport offsets, file
/// association, syntax label and undo/redo stacks.
pub struct Tab {
    pub content: Vec<Vec<char>>,
    pub cursor_position: (usize, usize),
    pub scroll_offset: usize,
    pub horizontal_scroll: usize,
    pub current_file: Option<String>,
    pub syntax: String,
    pub undo_stack: VecDeque<EditOperation>,
    pub redo_stack: VecDeque<EditOperation>,
}

impl View for Tab {
    type V = TabView;

    open spec fn view(&self) -> TabView {
        TabView {
            snap: Snap {
                lines: lines_view(self.content@),
                col: self.cursor_position.0 as nat,
                line: self.cursor_position.1 as nat,
                scroll: self.scroll_offset as nat,
                hscroll: self.horizontal_scroll as nat,
            },
            path: opt_path_view(self.current_file),
            syntax: self.syntax@,
            undo: self.undo_stack@.map_values(|e: EditOperation| e@),
            redo: self.redo_stack@.map_values(|e: EditOperation| e@),
        }
    }
}

/// The state of a brand-new scratch tab: one empty line, cursor at
/// the origin, no file association, empty history.
pub open spec fn spec_fresh_tab() -> TabView {
    TabView {
        snap: Snap {
            lines: seq![Seq::<char>::empty()],
            col: 0,
            line: 0,
            scroll: 0,
            hscroll: 0,
        },
        path: None,
        syntax: "Plain Text"@,
        undo: Seq::<Snap>::empty(),
        redo: Seq::<Snap>::empty(),
    }
}

/// The state of a tab built around text read from a file: an empty
/// text becomes the single empty line.
pub open spec fn spec_tab_from_lines(
    lines: Seq<Seq<char>>,
    path: Option<Seq<char>>,
    syntax: Seq<char>,
) -> TabView {
    TabView {
        snap: Snap {
            lines: if lines.len() == 0 {
                seq![Seq::<char>::empty()]
            } else {
                lines
            },
            col: 0,
            line: 0,
            scroll: 0,
            hscroll: 0,
        },
        path,
        syntax,
        undo: Seq::<Snap>::empty(),
        redo: Seq::<Snap>::empty(),
    }
}

/// A whole tab image is well formed when its live state and every
/// history snapshot keep the buffer invariant, and the two stacks
/// together never outgrow the history limit.
pub open spec fn tab_view_wf(t: TabView) -> bool {
    &&& snap_wf(t.snap)
    &&& forall|i: int| 0 <= i < t.undo.len() ==> snap_wf(#[trigger] t.undo[i])
    &&& forall|i: int| 0 <= i < t.redo.len() ==> snap_wf(#[trigger] t.redo[i])
    &&& t.undo.len() + t.redo.len() <= HISTORY_LIMIT
}

/// Push a snapshot on the front of an undo stack, evicting the oldest
/// entry once the stack is past [`HISTORY_LIMIT`].
pub open spec fn push_snapshot(undo: Seq<Snap>, s: Snap) -> Seq<Snap> {
    let pushed = seq![s] + undo;
    if pushed.len() > HISTORY_LIMIT {
        pushed.drop_last()
    } else {
        pushed
    }
}

/// What recording history does to a tab: the live state is copied onto
/// the undo stack and the redo stack is invalidated.
pub open spec fn spec_save_state(t: TabView) -> TabView {
    TabView { undo: push_snapshot(t.undo, t.snap), redo: seq![], ..t }
}

/// What undo does to a tab: restore the most recent undo snapshot,
/// parking the live state on the redo stack; a no-op when the undo
/// stack is empty.
pub open spec fn spec_undo(t: TabView) -> TabView {
    if t.undo.len() == 0 {
        t
    } else {
        TabView {
            snap: t.undo[0],
            undo: t.undo.drop_first(),
            redo: seq![t.snap] + t.redo,
            ..t
        }
    }
}

/// What redo does to a tab: the mirror of [`spec_undo`], against the
/// redo stack.
pub open spec fn spec_redo(t: TabView) -> TabView {
    if t.redo.len() == 0 {
        t
    } else {
        TabView {
            snap: t.redo[0],
            redo: t.redo.drop_first(),
            undo: seq![t.snap] + t.undo,
            ..t
        }
    }
}

/// Where the horizontal scroll offset lands after the cursor moved to
/// `col`: the offset follows the cursor left, and keeps it inside the
/// visible width on the right.
pub open spec fn spec_adjust_hscroll(col: nat, hs: nat) -> nat {
    if col < hs {
        col
    } else if col >= hs + EDITOR_WIDTH {
        (col - (EDITOR_WIDTH - 1)) as nat
    } else {
        hs
    }
}

/// What [`Tab::adjust_horizontal_scroll`] does to a whole tab.
pub open spec fn spec_adjust_horizontal_scroll(t: TabView) -> TabView {
    let s = t.snap;
    TabView { snap: Snap { hscroll: spec_adjust_hscroll(s.col, s.hscroll), ..s }, ..t }
}

/// Where the vertical scroll offset lands after the cursor moved to
/// `line`, for the fixed visible height.
pub open spec fn spec_adjust_scroll(line: nat, scroll: nat) -> nat {
    if line < scroll {
        line
    } else if line >= scroll + EDITOR_HEIGHT {
        (line - (EDITOR_HEIGHT - 1)) as nat
    } else {
        scroll
    }
}

/// What inserting a character at the cursor does: the character lands
/// at the cursor column, the cursor advances one column and the
/// horizontal scroll follows; a no-op when the cursor is out of bounds.
/// A history snapshot is recorded first.
pub open spec fn spec_insert_char(t: TabView, c: char) -> TabView {
    let s = t.snap;
    if s.line < s.lines.len() && s.col <= s.lines[s.line as int].len() {
        let col2 = (s.col + 1) as nat;
        TabView {
            snap: Snap {
                lines: s.lines.update(s.line as int, s.lines[s.line as int].insert(s.col as int, c)),
                col: col2,
                hscroll: spec_adjust_hscroll(col2, s.hscroll),
                ..s
            },
            ..spec_save_state(t)
        }
    } else {
        t
    }
}

/// What splitting the current line at the cursor does: the tail of the
/// line becomes a new line below, and the cursor moves to its start.
/// A history snapshot is recorded first.
pub open spec fn spec_insert_newline(t: TabView) -> TabView {
    let s = t.snap;
    TabView {
        snap: Snap {
            lines: s.lines.subrange(0, s.line as int)
                + seq![
                s.lines[s.line as int].take(s.col as int),
                s.lines[s.line as int].skip(s.col as int),
            ] + s.lines.subrange(s.line as int + 1, s.lines.len() as int),
            col: 0,
            line: (s.line + 1) as nat,
            ..s
        },
        ..spec_save_state(t)
    }
}

/// What backspace does: inside a line it removes the character left of
/// the cursor; at column 0 of a later line it merges the line into the
/// previous one, the cursor landing on the join point; at the origin
/// nothing changes. A history snapshot is recorded first in every case.
pub open spec fn spec_backspace(t: TabView) -> TabView {
    let s = t.snap;
    let t1 = spec_save_state(t);
    if s.col > 0 {
        TabView {
            snap: Snap {
                lines: s.lines.update(s.line as int, s.lines[s.line as int].remove(s.col - 1)),
                col: (s.col - 1) as nat,
                ..s
            },
            ..t1
        }
    } else if s.line > 0 {
        TabView {
            snap: Snap {
                lines: s.lines.subrange(0, s.line - 1)
                    + seq![s.lines[s.line - 1] + s.lines[s.line as int]]
                    + s.lines.subrange(s.line as int + 1, s.lines.len() as int),
                col: s.lines[s.line - 1].len(),
                line: (s.line - 1) as nat,
                ..s
            },
            ..t1
        }
    } else {
        t1
    }
}

/// What forward delete does: inside a line it removes the character
/// under the cursor; at end-of-line it merges the next line into the
/// current one; at the very end of the buffer nothing changes. A
/// history snapshot is recorded first in every case.
pub open spec fn spec_delete_char(t: TabView) -> TabView {
    let s = t.snap;
    let t1 = spec_save_state(t);
    if s.col < s.lines[s.line as int].len() {
        TabView {
            snap: Snap {
                lines: s.lines.update(s.line as int, s.lines[s.line as int].remove(s.col as int)),
                ..s
            },
            ..t1
        }
    } else if s.line + 1 < s.lines.len() {
        TabView {
            snap: Snap {
                lines: s.lines.subrange(0, s.line as int)
                    + seq![s.lines[s.line as int] + s.lines[s.line as int + 1]]
                    + s.lines.subrange(s.line as int + 2, s.lines.len() as int),
                ..s
            },
            ..t1
        }
    } else {
        t1
    }
}

/// What deleting the current line does: the line goes away; a fresh
/// empty line is added if it was the last one; the cursor column resets
/// to 0 and the cursor line steps back only if it pointed past the new
/// end. A history snapshot is recorded first.
pub open spec fn spec_delete_line(t: TabView) -> TabView {
    let s = t.snap;
    let removed = s.lines.remove(s.line as int);
    let lines2 = if removed.len() == 0 {
        seq![Seq::<char>::empty()]
    } else {
        removed
    };
    let line2 = if s.line == lines2.len() && s.line > 0 {
        (s.line - 1) as nat
    } else {
        s.line
    };
    TabView {
        snap: Snap { lines: lines2, col: 0, line: line2, ..s },
        ..spec_save_state(t)
    }
}

/// What opening an empty line below the cursor does.
/// A history snapshot is recorded first.
pub open spec fn spec_insert_line_below(t: TabView) -> TabView {
    let s = t.snap;
    TabView {
        snap: Snap {
            lines: s.lines.insert(s.line as int + 1, Seq::<char>::empty()),
            col: 0,
            line: (s.line + 1) as nat,
            ..s
        },
        ..spec_save_state(t)
    }
}

/// What opening an empty line above the cursor does.
/// A history snapshot is recorded first.
pub open spec fn spec_insert_line_above(t: TabView) -> TabView {
    let s = t.snap;
    TabView {
        snap: Snap {
            lines: s.lines.insert(s.line as int, Seq::<char>::empty()),
            col: 0,
            ..s
        },
        ..spec_save_state(t)
    }
}

/// Clamp a buffer state back into bounds: an empty buffer gains its
/// one empty line, the cursor line is clamped to the last line and the
/// cursor column to the line's length.
pub open spec fn spec_clamp_cursor(s: Snap) -> Snap {
    let lines2 = if s.lines.len() == 0 {
        seq![Seq::<char>::empty()]
    } else {
        s.lines
    };
    let line2 = if s.line >= lines2.len() {
        (lines2.len() - 1) as nat
    } else {
        s.line
    };
    let col2 = if s.col > lines2[line2 as int].len() {
        lines2[line2 as int].len()
    } else {
        s.col
    };
    Snap { lines: lines2, line: line2, col: col2, ..s }
}

/// What [`Tab::ensure_cursor_in_bounds`] does.
pub open spec fn spec_ensure_cursor_in_bounds(t: TabView) -> TabView {
    TabView { snap: spec_clamp_cursor(t.snap), ..t }
}

/// What [`Tab::ensure_cursor_visible`] does: the vertical scroll
/// offset moves just far enough to show the cursor line.
pub open spec fn spec_ensure_cursor_visible(t: TabView) -> TabView {
    let s = t.snap;
    TabView { snap: Snap { scroll: spec_adjust_scroll(s.line, s.scroll), ..s }, ..t }
}

/// What moving the cursor up one line does: the column is preserved
/// when possible by clamping to the target line's length, and the
/// scroll offset follows the cursor out of the top of the viewport.
pub open spec fn spec_move_cursor_up(t: TabView) -> TabView {
    let s = t.snap;
    if s.line > 0 {
        let line2 = (s.line - 1) as nat;
        let col2 = if s.col > s.lines[line2 as int].len() {
            s.lines[line2 as int].len()
        } else {
            s.col
        };
        let scroll2 = if line2 < s.scroll {
            line2
        } else {
            s.scroll
        };
        TabView { snap: Snap { line: line2, col: col2, scroll: scroll2, ..s }, ..t }
    } else {
        t
    }
}

/// What moving the cursor down one line does: the column is preserved
/// when possible by clamping to the target line's length, and the
/// scroll offset follows the cursor out of the bottom of the viewport.
pub open spec fn spec_move_cursor_down(t: TabView) -> TabView {
    let s = t.snap;
    if s.line + 1 < s.lines.len() {
        let line2 = (s.line + 1) as nat;
        let col2 = if s.col > s.lines[line2 as int].len() {
            s.lines[line2 as int].len()
        } else {
            s.col
        };
        let scroll2 = if line2 >= s.scroll + EDITOR_HEIGHT {
            (line2 - (EDITOR_HEIGHT - 1)) as nat
        } else {
            s.scroll
        };
        TabView { snap: Snap { line: line2, col: col2, scroll: scroll2, ..s }, ..t }
    } else {
        t
    }
}

/// What moving the cursor left does: one column left, or — at column 0
/// of a later line — wrap to the end of the previous line.
pub open spec fn spec_move_cursor_left(t: TabView) -> TabView {
    let s = t.snap;
    if s.col > 0 {
        let col2 = (s.col - 1) as nat;
        let hs2 = if col2 < s.hscroll {
            col2
        } else {
            s.hscroll
        };
        TabView { snap: Snap { col: col2, hscroll: hs2, ..s }, ..t }
    } else if s.line > 0 {
        let col2 = s.lines[s.line - 1].len();
        TabView {
            snap: Snap {
                col: col2,
                line: (s.line - 1) as nat,
                hscroll: spec_adjust_hscroll(col2, s.hscroll),
                ..s
            },
            ..t
        }
    } else {
        t
    }
}

/// What moving the cursor right does: one column right, or — at
/// end-of-line — wrap to column 0 of the next line.
pub open spec fn spec_move_cursor_right(t: TabView) -> TabView {
    let s = t.snap;
    if s.col < s.lines[s.line as int].len() {
        let col2 = (s.col + 1) as nat;
        TabView {
            snap: Snap { col: col2, hscroll: spec_adjust_hscroll(col2, s.hscroll), ..s },
            ..t
        }
    } else if s.line + 1 < s.lines.len() {
        TabView { snap: Snap { col: 0, line: (s.line + 1) as nat, hscroll: 0, ..s }, ..t }
    } else {
        t
    }
}

/// What Home does: column 0, horizontal scroll re-aligned.
pub open spec fn spec_move_cursor_start_of_line(t: TabView) -> TabView {
    let s = t.snap;
    TabView { snap: Snap { col: 0, hscroll: spec_adjust_hscroll(0, s.hscroll), ..s }, ..t }
}

/// What End does: the cursor moves to the end of the current line,
/// horizontal scroll re-aligned.
pub open spec fn spec_move_cursor_end_of_line(t: TabView) -> TabView {
    let s = t.snap;
    let col2 = s.lines[s.line as int].len();
    TabView { snap: Snap { col: col2, hscroll: spec_adjust_hscroll(col2, s.hscroll), ..s }, ..t }
}

/// What page-up does: the viewport moves up by one visible height
/// (clamped at the top), the cursor snaps to the new top line, and the
/// cursor is clamped back into the buffer.
pub open spec fn spec_page_up(t: TabView) -> TabView {
    let s = t.snap;
    let scroll2: nat = if s.scroll > EDITOR_HEIGHT {
        (s.scroll - EDITOR_HEIGHT) as nat
    } else {
        0
    };
    TabView { snap: spec_clamp_cursor(Snap { line: scroll2, scroll: scroll2, ..s }), ..t }
}

/// What page-down does: the viewport moves down by one visible height
/// (clamped so the last page stays full), the cursor snaps to the new
/// bottom visible line, and the cursor is clamped back into the buffer.
pub open spec fn spec_page_down(t: TabView) -> TabView {
    let s = t.snap;
    let max_scroll: nat = if s.lines.len() > EDITOR_HEIGHT {
        (s.lines.len() - EDITOR_HEIGHT) as nat
    } else {
        0
    };
    let scroll2: nat = if s.scroll + EDITOR_HEIGHT < max_scroll {
        (s.scroll + EDITOR_HEIGHT) as nat
    } else {
        max_scroll
    };
    let line2: nat = (scroll2 + EDITOR_HEIGHT - 1) as nat;
    let line3: nat = if line2 >= s.lines.len() {
        (s.lines.len() - 1) as nat
    } else {
        line2
    };
    TabView { snap: spec_clamp_cursor(Snap { line: line3, scroll: scroll2, ..s }), ..t }
}

/// Inserting a character and immediately backspacing restores the
/// exact prior buffer content and cursor position.
pub proof fn lemma_insert_backspace_round_trip(t: TabView, c: char)
    requires
        snap_wf(t.snap),
    ensures
        spec_backspace(spec_insert_char(t, c)).snap.lines == t.snap.lines,
        spec_backspace(spec_insert_char(t, c)).snap.col == t.snap.col,
        spec_backspace(spec_insert_char(t, c)).snap.line == t.snap.line,
{
    let s = t.snap;
    let line = s.lines[s.line as int];
    assert(line.insert(s.col as int, c).remove(s.col as int) =~= line);
    assert(spec_backspace(spec_insert_char(t, c)).snap.lines =~~= t.snap.lines);
}

/// Undo followed immediately by redo restores the whole tab — text,
/// cursor, viewport and both history stacks — whenever there is
/// anything to undo, as there is right after any mutating operation.
pub proof fn lemma_undo_redo_round_trip(t: TabView)
    requires
        t.undo.len() > 0,
    ensures
        spec_redo(spec_undo(t)) == t,
{
    assert(spec_redo(spec_undo(t)) =~~= t);
}

/// Every mutating operation leaves something on the undo stack, so
/// [`lemma_undo_redo_round_trip`] applies to the state it produces.
pub proof fn lemma_save_state_leaves_undo(t: TabView)
    ensures
        spec_save_state(t).undo.len() > 0,
{
}

/// Copy one line of text.
pub fn clone_line(v: &Vec<char>) -> (r: Vec<char>)
    ensures
        r@ == v@,
{
    let mut r: Vec<char> = Vec::new();
    let mut i: usize = 0;
    while i < v.len()
        invariant
            i <= v.len(),
            r@ == v@.take(i as int),
        decreases v.len() - i,
    {
        r.push(v[i]);
        proof {
            assert(r@ =~= v@.take(i as int + 1));
        }
        i = i + 1;
    }
    proof {
        assert(r@ =~= v@);
    }
    r
}

/// Copy a whole buffer's text, line by line.
pub fn clone_lines(v: &Vec<Vec<char>>) -> (r: Vec<Vec<char>>)
    ensures
        lines_view(r@) == lines_view(v@),
{
    let mut r: Vec<Vec<char>> = Vec::new();
    let mut i: usize = 0;
    while i < v.len()
        invariant
            i <= v.len(),
            r@.len() == i,
            forall|j: int| 0 <= j < i ==> #[trigger] r@[j]@ == v@[j]@,
        decreases v.len() - i,
    {
        r.push(clone_line(&v[i]));
        i = i + 1;
    }
    proof {
        assert(lines_view(r@) =~~= lines_view(v@));
    }
    r
}

impl Tab {
    /// Every snapshot in the history keeps the buffer invariant, and
    /// the two stacks together never outgrow the history limit.
    pub open spec fn history_wf(&self) -> bool {
        &&& forall|i: int| 0 <= i < self@.undo.len() ==> snap_wf(#[trigger] self@.undo[i])
        &&& forall|i: int| 0 <= i < self@.redo.len() ==> snap_wf(#[trigger] self@.redo[i])
        &&& self@.undo.len() + self@.redo.len() <= HISTORY_LIMIT
    }

    /// Every state a tab can reach is well formed: the live state keeps
    /// the buffer invariant, and so does its whole history.
    pub open spec fn wf(&self) -> bool {
        tab_view_wf(self@)
    }

    /// A fresh scratch tab: one empty line, cursor at the origin, no
    /// file association, empty history.
    pub fn new() -> (t: Tab)
        ensures
            t.wf(),
            t@ == spec_fresh_tab(),
    {
        let mut content: Vec<Vec<char>> = Vec::new();
        content.push(Vec::new());
        let t = Tab {
            content,
            cursor_position: (0, 0),
            scroll_offset: 0,
            horizontal_scroll: 0,
            current_file: None,
            syntax: "Plain Text".to_owned(),
            undo_stack: VecDeque::new(),
            redo_stack: VecDeque::new(),
        };
        proof {
            assert(t@ =~~= spec_fresh_tab());
        }
        t
    }

    /// Build a tab around text read from a file: an empty text becomes
    /// the single empty line, so the buffer invariant holds from the
    /// start.
    pub fn from_lines(lines: Vec<Vec<char>>, path: Option<String>, syntax: String) -> (t: Tab)
        ensures
            t.wf(),
            t@ == spec_tab_from_lines(lines_view(lines@), opt_path_view(path), syntax@),
    {
        let ghost target = spec_tab_from_lines(lines_view(lines@), opt_path_view(path), syntax@);
        let mut content = lines;
        if content.len() == 0 {
            content.push(Vec::new());
        }
        let t = Tab {
            content,
            cursor_position: (0, 0),
            scroll_offset: 0,
            horizontal_scroll: 0,
            current_file: path,
            syntax,
            undo_stack: VecDeque::new(),
            redo_stack: VecDeque::new(),
        };
        proof {
            assert(t@ =~~= target);
        }
        t
    }

    /// Insert a character at the cursor and advance the cursor one
    /// column; a silent no-op when the cursor is out of bounds, since
    /// callers maintain the in-bounds invariant themselves.
    pub fn insert_char(&mut self, c: char)
        ensures
            final(self)@ == spec_insert_char(old(self)@, c),
            old(self).wf() ==> final(self).wf(),
    {
        let line_idx = self.cursor_position.1;
        let col = self.cursor_position.0;
        if line_idx < self.content.len() && col <= self.content[line_idx].len() {
            self.save_state();
            self.content[line_idx].insert(col, c);
            let new_len = self.content[line_idx].len();
            proof {
                assert(col + 1 <= new_len);
            }
            self.cursor_position = (col + 1, line_idx);
            self.adjust_horizontal_scroll_inner();
            proof {
                assert(self@ =~~= spec_insert_char(old(self)@, c));
            }
        } else {
            proof {
                assert(self@ =~~= spec_insert_char(old(self)@, c));
            }
        }
    }

    /// Split the current line at the cursor; the cursor moves to the
    /// start of the new (second) line.
    pub fn insert_newline(&mut self)
        requires
            old(self).wf(),
        ensures
            final(self)@ == spec_insert_newline(old(self)@),
            final(self).wf(),
    {
        self.save_state();
        let line_idx = self.cursor_position.1;
        let col = self.cursor_position.0;
        let n = self.content.len();
        proof {
            assert(line_idx < n);
        }
        let rest = self.content[line_idx].split_off(col);
        self.content.insert(line_idx + 1, rest);
        self.cursor_position = (0, line_idx + 1);
        proof {
            assert(self@ =~~= spec_insert_newline(old(self)@));
        }
    }

    /// Remove the character left of the cursor, or merge the current
    /// line into the previous one at column 0; a no-op at the origin.
    pub fn backspace(&mut self)
        requires
            old(self).wf(),
        ensures
            final(self)@ == spec_backspace(old(self)@),
            final(self).wf(),
    {
        self.save_state();
        let line_idx = self.cursor_position.1;
        let col = self.cursor_position.0;
        if col > 0 {
            self.content[line_idx].remove(col - 1);
            self.cursor_position = (col - 1, line_idx);
            proof {
                assert(self@ =~~= spec_backspace(old(self)@));
            }
        } else if line_idx > 0 {
            let mut current = self.content.remove(line_idx);
            let new_col = self.content[line_idx - 1].len();
            self.content[line_idx - 1].append(&mut current);
            self.cursor_position = (new_col, line_idx - 1);
            proof {
                assert(self@ =~~= spec_backspace(old(self)@));
            }
        } else {
            proof {
                assert(self@ =~~= spec_backspace(old(self)@));
            }
        }
    }

    /// Remove the character under the cursor, or merge the next line
    /// into the current one at end-of-line; a no-op at the very end.
    pub fn delete_char(&mut self)
        requires
            old(self).wf(),
        ensures
            final(self)@ == spec_delete_char(old(self)@),
            final(self).wf(),
    {
        self.save_state();
        let line_idx = self.cursor_position.1;
        let col = self.cursor_position.0;
        let n = self.content.len();
        proof {
            assert(line_idx < n);
        }
        if col < self.content[line_idx].len() {
            self.content[line_idx].remove(col);
            proof {
                assert(self@ =~~= spec_delete_char(old(self)@));
            }
        } else if line_idx + 1 < n {
            let mut next = self.content.remove(line_idx + 1);
            self.content[line_idx].append(&mut next);
            proof {
                assert(self@ =~~= spec_delete_char(old(self)@));
            }
        } else {
            proof {
                assert(self@ =~~= spec_delete_char(old(self)@));
            }
        }
    }

    /// Remove the current line, keeping the buffer non-empty, and hand
    /// the removed text back so the caller can offer it to the
    /// clipboard.
    pub fn delete_line(&mut self) -> (removed: Vec<char>)
        requires
            old(self).wf(),
        ensures
            final(self)@ == spec_delete_line(old(self)@),
            final(self).wf(),
            removed@ == old(self)@.snap.lines[old(self)@.snap.line as int],

    {
        self.save_state();
        let line_idx = self.cursor_position.1;
        let removed = self.content.remove(line_idx);
        if self.content.len() == 0 {
            self.content.push(Vec::new());
        }
        let mut new_line = line_idx;
        if line_idx == self.content.len() && line_idx > 0 {
            new_line = line_idx - 1;
        }
        self.cursor_position = (0, new_line);
        proof {
            assert(self@ =~~= spec_delete_line(old(self)@));
        }
        removed
    }

    /// Open an empty line below the cursor and move the cursor to it.
    pub fn insert_line_below(&mut self)
        requires
            old(self).wf(),
        ensures
            final(self)@ == spec_insert_line_below(old(self)@),
            final(self).wf(),
    {
        self.save_state();
        let line_idx = self.cursor_position.1;
        let n = self.content.len();
        proof {
            assert(line_idx < n);
        }
        self.content.insert(line_idx + 1, Vec::new());
        self.cursor_position = (0, line_idx + 1);
        proof {
            assert(self@ =~~= spec_insert_line_below(old(self)@));
        }
    }

    /// Open an empty line above the cursor; the cursor stays on the new
    /// line's index.
    pub fn insert_line_above(&mut self)
        requires
            old(self).wf(),
        ensures
            final(self)@ == spec_insert_line_above(old(self)@),
            final(self).wf(),
    {
        self.save_state();
        let line_idx = self.cursor_position.1;
        self.content.insert(line_idx, Vec::new());
        self.cursor_position = (0, line_idx);
        proof {
            assert(self@ =~~= spec_insert_line_above(old(self)@));
        }
    }

    /// Keep the cursor inside the visible width by moving the
    /// horizontal scroll offset after a cursor change.
    pub fn adjust_horizontal_scroll(&mut self)
        ensures
            final(self)@ == spec_adjust_horizontal_scroll(old(self)@),
            old(self).wf() ==> final(self).wf(),
    {
        self.adjust_horizontal_scroll_inner();
    }

    /// Body shared by [`Tab::adjust_horizontal_scroll`] and the edit
    /// operations that re-align the viewport as they move the cursor.
    fn adjust_horizontal_scroll_inner(&mut self)
        ensures
            final(self)@ == spec_adjust_horizontal_scroll(old(self)@),
            old(self).wf() ==> final(self).wf(),
    {
        let col = self.cursor_position.0;
        if col < self.horizontal_scroll {
            self.horizontal_scroll = col;
        } else if col >= EDITOR_WIDTH && col - EDITOR_WIDTH >= self.horizontal_scroll {
            self.horizontal_scroll = col - EDITOR_WIDTH + 1;
        }
        proof {
            assert(self@ =~~= spec_adjust_horizontal_scroll(old(self)@));
        }
    }

    /// Record the current (pre-mutation) state on the undo stack and
    /// invalidate the redo stack; every mutating operation calls this
    /// before it mutates.
    pub fn save_state(&mut self)
        ensures
            final(self)@ == spec_save_state(old(self)@),
            old(self).wf() ==> final(self).wf(),
    {
        let snapshot = EditOperation {
            content: clone_lines(&self.content),
            cursor_position: self.cursor_position,
            scroll_offset: self.scroll_offset,
            horizontal_scroll: self.horizontal_scroll,
        };
        self.undo_stack.push_front(snapshot);
        self.redo_stack.clear();
        if self.undo_stack.len() > HISTORY_LIMIT {
            self.undo_stack.pop_back();
        }
        proof {
            let target = push_snapshot(old(self)@.undo, old(self)@.snap);
            let cur = self.undo_stack@;
            assert(snapshot@ == old(self)@.snap);
            assert(self@.undo.len() == target.len());
            assert forall|i: int| 0 <= i < target.len() implies self@.undo[i] == target[i] by {
                assert(self@.undo[i] == cur[i]@);
                if i > 0 {
                    assert(cur[i] == old(self).undo_stack@[i - 1]);
                    assert(old(self)@.undo[i - 1] == old(self).undo_stack@[i - 1]@);
                }
            }
            assert(self@.undo =~~= target);
            assert(self@ =~~= spec_save_state(old(self)@));
        }
    }

    /// Restore the most recent undo snapshot, parking the live state on
    /// the redo stack; a no-op when the undo stack is empty. Does not
    /// itself record history.
    pub fn undo(&mut self)
        ensures
            final(self)@ == spec_undo(old(self)@),
            old(self).wf() ==> final(self).wf(),
    {
        let popped = self.undo_stack.pop_front();
        match popped {
            None => {
                proof {
                    assert(self@ =~~= spec_undo(old(self)@));
                }
            },
            Some(op) => {
                let current = EditOperation {
                    content: clone_lines(&self.content),
                    cursor_position: self.cursor_position,
                    scroll_offset: self.scroll_offset,
                    horizontal_scroll: self.horizontal_scroll,
                };
                self.redo_stack.push_front(current);
                self.content = op.content;
                self.cursor_position = op.cursor_position;
                self.scroll_offset = op.scroll_offset;
                self.horizontal_scroll = op.horizontal_scroll;
                proof {
                    let target = spec_undo(old(self)@);
                    assert(current@ == old(self)@.snap);
                    assert(self@.undo =~= target.undo);
                    assert(self@.redo =~= target.redo);
                    assert(self@ =~~= target);
                }
            },
        }
    }

    /// Clamp the cursor (and, for an emptied buffer, the text itself)
    /// back into bounds; called after operations that can shrink
    /// content, and a no-op otherwise.
    pub fn ensure_cursor_in_bounds(&mut self)
        ensures
            final(self)@ == spec_ensure_cursor_in_bounds(old(self)@),
            snap_wf(final(self)@.snap),
            old(self).history_wf() ==> final(self).wf(),
    {
        if self.content.len() == 0 {
            self.content.push(Vec::new());
        }
        let max_line = self.content.len() - 1;
        if self.cursor_position.1 > max_line {
            self.cursor_position.1 = max_line;
        }
        let line_len = self.content[self.cursor_position.1].len();
        if self.cursor_position.0 > line_len {
            self.cursor_position.0 = line_len;
        }
        proof {
            assert(self@ =~~= spec_ensure_cursor_in_bounds(old(self)@));
        }
    }

    /// Move the vertical scroll offset just far enough to bring the
    /// cursor line into the viewport.
    pub fn ensure_cursor_visible(&mut self)
        ensures
            final(self)@ == spec_ensure_cursor_visible(old(self)@),
            old(self).wf() ==> final(self).wf(),
    {
        let line = self.cursor_position.1;
        if line < self.scroll_offset {
            self.scroll_offset = line;
        } else if line >= EDITOR_HEIGHT && line - EDITOR_HEIGHT >= self.scroll_offset {
            self.scroll_offset = line - EDITOR_HEIGHT + 1;
        }
        proof {
            assert(self@ =~~= spec_ensure_cursor_visible(old(self)@));
        }
    }

    /// Move the cursor up one line, clamping the column to the target
    /// line and scrolling if the cursor leaves the viewport.
    pub fn move_cursor_up(&mut self)
        requires
            old(self).wf(),
        ensures
            final(self)@ == spec_move_cursor_up(old(self)@),
            final(self).wf(),
    {
        if self.cursor_position.1 > 0 {
            self.cursor_position.1 = self.cursor_position.1 - 1;
            let line_len = self.content[self.cursor_position.1].len();
            if self.cursor_position.0 > line_len {
                self.cursor_position.0 = line_len;
            }
            if self.cursor_position.1 < self.scroll_offset {
                self.scroll_offset = self.cursor_position.1;
            }
        }
        proof {
            assert(self@ =~~= spec_move_cursor_up(old(self)@));
        }
    }

    /// Move the cursor down one line, clamping the column to the target
    /// line and scrolling if the cursor leaves the viewport.
    pub fn move_cursor_down(&mut self)
        requires
            old(self).wf(),
        ensures
            final(self)@ == spec_move_cursor_down(old(self)@),
            final(self).wf(),
    {
        let n = self.content.len();
        proof {
            assert(self.cursor_position.1 < n);
        }
        if self.cursor_position.1 + 1 < n {
            let line = self.cursor_position.1 + 1;
            self.cursor_position.1 = line;
            let line_len = self.content[line].len();
            if self.cursor_position.0 > line_len {
                self.cursor_position.0 = line_len;
            }
            if line >= EDITOR_HEIGHT && line - EDITOR_HEIGHT >= self.scroll_offset {
                self.scroll_offset = line - EDITOR_HEIGHT + 1;
            }
        }
        proof {
            assert(self@ =~~= spec_move_cursor_down(old(self)@));
        }
    }

    /// Move the cursor left one column, wrapping to the end of the
    /// previous line at column 0.
    pub fn move_cursor_left(&mut self)
        requires
            old(self).wf(),
        ensures
            final(self)@ == spec_move_cursor_left(old(self)@),
            final(self).wf(),
    {
        if self.cursor_position.0 > 0 {
            self.cursor_position.0 = self.cursor_position.0 - 1;
            if self.cursor_position.0 < self.horizontal_scroll {
                self.horizontal_scroll = self.cursor_position.0;
            }
        } else if self.cursor_position.1 > 0 {
            self.cursor_position.1 = self.cursor_position.1 - 1;
            self.cursor_position.0 = self.content[self.cursor_position.1].len();
            self.adjust_horizontal_scroll_inner();
        }
        proof {
            assert(self@ =~~= spec_move_cursor_left(old(self)@));
        }
    }

    /// Move the cursor right one column, wrapping to column 0 of the
    /// next line at end-of-line.
    pub fn move_cursor_right(&mut self)
        requires
            old(self).wf(),
        ensures
            final(self)@ == spec_move_cursor_right(old(self)@),
            final(self).wf(),
    {
        let n = self.content.len();
        proof {
            assert(self.cursor_position.1 < n);
        }
        if self.cursor_position.0 < self.content[self.cursor_position.1].len() {
            self.cursor_position.0 = self.cursor_position.0 + 1;
            self.adjust_horizontal_scroll_inner();
        } else if self.cursor_position.1 + 1 < n {
            self.cursor_position.1 = self.cursor_position.1 + 1;
            self.cursor_position.0 = 0;
            self.horizontal_scroll = 0;
        }
        proof {
            assert(self@ =~~= spec_move_cursor_right(old(self)@));
        }
    }

    /// Move the cursor to the start of the current line.
    pub fn move_cursor_start_of_line(&mut self)
        ensures
            final(self)@ == spec_move_cursor_start_of_line(old(self)@),
            old(self).wf() ==> final(self).wf(),
    {
        self.cursor_position.0 = 0;
        self.adjust_horizontal_scroll_inner();
        proof {
            assert(self@ =~~= spec_move_cursor_start_of_line(old(self)@));
        }
    }

    /// Move the cursor to the end of the current line.
    pub fn move_cursor_end_of_line(&mut self)
        requires
            old(self).wf(),
        ensures
            final(self)@ == spec_move_cursor_end_of_line(old(self)@),
            final(self).wf(),
    {
        self.cursor_position.0 = self.content[self.cursor_position.1].len();
        self.adjust_horizontal_scroll_inner();
        proof {
            assert(self@ =~~= spec_move_cursor_end_of_line(old(self)@));
        }
    }

    /// Scroll up one page and snap the cursor to the new top visible
    /// line, clamped back into the buffer.
    pub fn page_up(&mut self)
        requires
            old(self).wf(),
        ensures
            final(self)@ == spec_page_up(old(self)@),
            final(self).wf(),
    {
        if self.scroll_offset > EDITOR_HEIGHT {
            self.scroll_offset = self.scroll_offset - EDITOR_HEIGHT;
        } else {
            self.scroll_offset = 0;
        }
        self.cursor_position.1 = self.scroll_offset;
        if self.cursor_position.1 >= self.content.len() {
            self.cursor_position.1 = self.content.len() - 1;
        }
        let line_len = self.content[self.cursor_position.1].len();
        if self.cursor_position.0 > line_len {
            self.cursor_position.0 = line_len;
        }
        proof {
            assert(self@ =~~= spec_page_up(old(self)@));
        }
    }

    /// Scroll down one page and snap the cursor to the new bottom
    /// visible line, clamped back into the buffer.
    pub fn page_down(&mut self)
        requires
            old(self).wf(),
        ensures
            final(self)@ == spec_page_down(old(self)@),
            final(self).wf(),
    {
        let len = self.content.len();
        let max_scroll = if len > EDITOR_HEIGHT {
            len - EDITOR_HEIGHT
        } else {
            0
        };
        if self.scroll_offset < max_scroll && max_scroll - self.scroll_offset > EDITOR_HEIGHT {
            self.scroll_offset = self.scroll_offset + EDITOR_HEIGHT;
        } else {
            self.scroll_offset = max_scroll;
        }
        let mut line = self.scroll_offset + EDITOR_HEIGHT - 1;
        if line >= len {
            line = len - 1;
        }
        self.cursor_position.1 = line;
        let line_len = self.content[line].len();
        if self.cursor_position.0 > line_len {
            self.cursor_position.0 = line_len;
        }
        proof {
            assert(self@ =~~= spec_page_down(old(self)@));
        }
    }

    /// The mirror of [`Tab::undo`], against the redo stack.
    pub fn redo(&mut self)
        ensures
            final(self)@ == spec_redo(old(self)@),
            old(self).wf() ==> final(self).wf(),
    {
        let popped = self.redo_stack.pop_front();
        match popped {
            None => {
                proof {
                    assert(self@ =~~= spec_redo(old(self)@));
                }
            },
            Some(op) => {
                let current = EditOperation {
                    content: clone_lines(&self.content),
                    cursor_position: self.cursor_position,
                    scroll_offset: self.scroll_offset,
                    horizontal_scroll: self.horizontal_scroll,
                };
                self.undo_stack.push_front(current);
                self.content = op.content;
                self.cursor_position = op.cursor_position;
                self.scroll_offset = op.scroll_offset;
                self.horizontal_scroll = op.horizontal_scroll;
                proof {
                    let target = spec_redo(old(self)@);
                    assert(current@ == old(self)@.snap);
                    assert(self@.undo =~= target.undo);
                    assert(self@.redo =~= target.redo);
                    assert(self@ =~~= target);
                }
            },
        }
    }
}

} // verus!
