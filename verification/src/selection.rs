//! Selections and clipboard-mediated text movement: normalizing a
//! pair of positions into an ordered range, extracting and deleting
//! the covered text, and the two paste operations.
//!
//! Keyboard (visual-mode) selection includes the end character; a
//! mouse drag excludes it. The two conventions are kept apart on
//! purpose: they are independent gestures with independently observed
//! behavior.

use vstd::prelude::*;
use crate::buffer::{lines_view, spec_ensure_cursor_in_bounds, spec_save_state, Snap, TabView};
use crate::editor::{
    active_of, with_active, EditorView, Effect, EffectView, Editor,
};

verus! {

/// A position pair ordered so that `start` is the lexicographically
/// smaller of the two in (line, column) order. Positions are
/// (column, line) pairs, as the cursor is.
pub open spec fn norm_pair(a: (nat, nat), b: (nat, nat)) -> ((nat, nat), (nat, nat)) {
    if a.1 < b.1 || (a.1 == b.1 && a.0 <= b.0) {
        (a, b)
    } else {
        (b, a)
    }
}

/// The clamped `[from, to)` slice of one line.
pub open spec fn line_slice(l: Seq<char>, from: nat, to: nat) -> Seq<char> {
    let f: nat = if from > l.len() {
        l.len()
    } else {
        from
    };
    let t: nat = if to > l.len() {
        l.len()
    } else {
        to
    };
    if f <= t {
        l.subrange(f as int, t as int)
    } else {
        Seq::<char>::empty()
    }
}

/// The piece one line contributes to a selection from `start` to
/// `end`: the tail of the start line, a full interior line, the head
/// of the end line, or — on a single line — the span between the
/// columns. `extra` is 1 where the end column is included (keyboard
/// selection) and 0 where it is excluded (mouse drag).
pub open spec fn sel_piece(
    lines: Seq<Seq<char>>,
    start: (nat, nat),
    end: (nat, nat),
    extra: nat,
    i: int,
) -> Seq<char> {
    let l = lines[i];
    if i == start.1 && i == end.1 {
        line_slice(l, start.0, (end.0 + extra) as nat)
    } else if i == start.1 {
        line_slice(l, start.0, l.len())
    } else if i == end.1 {
        line_slice(l, 0, (end.0 + extra) as nat)
    } else {
        l
    }
}

/// The selected text contributed by lines `i` and onward, newline
/// separators included; a line past the buffer's end contributes
/// nothing (its separator from the line before remains).
pub open spec fn sel_text_from(
    lines: Seq<Seq<char>>,
    start: (nat, nat),
    end: (nat, nat),
    extra: nat,
    i: int,
) -> Seq<char>
    decreases lines.len() - i,
{
    if i < start.1 || i > end.1 || i < 0 || i >= lines.len() {
        Seq::<char>::empty()
    } else {
        let sep: Seq<char> = if i != end.1 {
            seq!['\n']
        } else {
            Seq::<char>::empty()
        };
        sel_piece(lines, start, end, extra, i) + sep + sel_text_from(lines, start, end, extra, i + 1)
    }
}

/// The whole selected text between two already-normalized positions.
pub open spec fn spec_selection_text(
    lines: Seq<Seq<char>>,
    start: (nat, nat),
    end: (nat, nat),
    extra: nat,
) -> Seq<char> {
    sel_text_from(lines, start, end, extra, start.1 as int)
}

/// What deleting the selected span does to a tab: the span goes away,
/// the surviving head of the start line and tail of the end line are
/// rejoined into one line, and the cursor lands at the selection
/// start (clamped into the new line). A history snapshot is recorded
/// first. The end character is included, as in keyboard selection.
pub open spec fn spec_delete_selection(t: TabView, a: (nat, nat), b: (nat, nat)) -> TabView {
    let t1 = spec_save_state(t);
    let s = t.snap;
    let pair = norm_pair(a, b);
    let start = pair.0;
    let end = pair.1;
    if start.1 >= s.lines.len() {
        t1
    } else {
        let e1: int = if end.1 >= s.lines.len() {
            s.lines.len() - 1
        } else {
            end.1 as int
        };
        let joined = line_slice(s.lines[start.1 as int], 0, start.0) + line_slice(
            s.lines[e1],
            (end.0 + 1) as nat,
            s.lines[e1].len(),
        );
        let lines2 = s.lines.take(start.1 as int) + seq![joined] + s.lines.skip(e1 + 1);
        let col2: nat = if start.0 > joined.len() {
            joined.len()
        } else {
            start.0
        };
        TabView { snap: Snap { lines: lines2, col: col2, line: start.1, ..s }, ..t1 }
    }
}

/// The clipboard text split at newlines; always at least one part.
pub open spec fn split_nl(s: Seq<char>) -> Seq<Seq<char>>
    decreases s.len(),
{
    if s.len() == 0 {
        seq![Seq::<char>::empty()]
    } else if s[0] == '\n' {
        seq![Seq::<char>::empty()] + split_nl(s.drop_first())
    } else {
        let r = split_nl(s.drop_first());
        seq![seq![s[0]] + r[0]] + r.drop_first()
    }
}

/// Splitting yields at least one part.
pub proof fn lemma_split_nl_len(s: Seq<char>)
    ensures
        split_nl(s).len() >= 1,
    decreases s.len(),
{
    if s.len() > 0 {
        lemma_split_nl_len(s.drop_first());
    }
}

/// Text without a newline splits into itself alone.
pub proof fn lemma_split_nl_single(s: Seq<char>)
    requires
        split_nl(s).len() == 1,
    ensures
        split_nl(s)[0] == s,
    decreases s.len(),
{
    if s.len() == 0 {
        assert(split_nl(s)[0] =~= s);
    } else if s[0] == '\n' {
        lemma_split_nl_len(s.drop_first());
    } else {
        lemma_split_nl_len(s.drop_first());
        lemma_split_nl_single(s.drop_first());
        assert(split_nl(s)[0] =~= s);
    }
}

/// What pasting after the cursor does: the current line is split at
/// the cursor column (clamped), the clipboard's lines are spliced in
/// between the two halves — the first onto the head, the tail of the
/// line becoming a line of its own — and the cursor lands at the
/// start of that final line. A history snapshot is recorded first.
pub open spec fn spec_paste_after(t: TabView, clip: Seq<char>) -> TabView {
    let t1 = spec_save_state(t);
    let s = t.snap;
    let l = s.lines[s.line as int];
    let cut: nat = if s.col > l.len() {
        l.len()
    } else {
        s.col
    };
    let left = l.take(cut as int);
    let right = l.skip(cut as int);
    let parts = split_nl(clip);
    let combined = seq![left + parts[0]] + parts.drop_first() + seq![right];
    let lines2 = s.lines.take(s.line as int) + combined + s.lines.skip(s.line as int + 1);
    let last: nat = (s.line + combined.len() - 1) as nat;
    TabView { snap: Snap { lines: lines2, col: 0, line: last, ..s }, ..t1 }
}

/// What inserting clipboard text at the cursor does: single-line text
/// is spliced into the current line and the cursor advances past it;
/// multi-line text splits the current line around the pasted lines
/// and the cursor lands after the last pasted line's text. A history
/// snapshot is recorded first.
pub open spec fn spec_paste_insert(t: TabView, clip: Seq<char>) -> TabView {
    let t1 = spec_save_state(t);
    let s = t.snap;
    let l = s.lines[s.line as int];
    let parts = split_nl(clip);
    if parts.len() == 1 {
        let l2 = l.take(s.col as int) + clip + l.skip(s.col as int);
        TabView {
            snap: Snap {
                lines: s.lines.update(s.line as int, l2),
                col: (s.col + clip.len()) as nat,
                ..s
            },
            ..t1
        }
    } else {
        let left = l.take(s.col as int);
        let right = l.skip(s.col as int);
        let middle = parts.subrange(1, parts.len() - 1);
        let lines2 = s.lines.take(s.line as int) + seq![left + parts[0]] + middle + seq![
            parts.last() + right,
        ] + s.lines.skip(s.line as int + 1);
        TabView {
            snap: Snap {
                lines: lines2,
                col: parts.last().len(),
                line: (s.line + parts.len() - 1) as nat,
                ..s
            },
            ..t1
        }
    }
}

/// The clamped `[from, to)` slice of one line, as a fresh vector.
pub fn slice_line(l: &Vec<char>, from: usize, to: usize) -> (r: Vec<char>)
    ensures
        r@ == line_slice(l@, from as nat, to as nat),
{
    let n = l.len();
    let f = if from > n {
        n
    } else {
        from
    };
    let t = if to > n {
        n
    } else {
        to
    };
    let mut r: Vec<char> = Vec::new();
    if f >= t {
        proof {
            assert(r@ =~= line_slice(l@, from as nat, to as nat));
        }
        return r;
    }
    let mut i = f;
    while i < t
        invariant
            f <= i <= t <= l@.len(),
            r@ == l@.subrange(f as int, i as int),
        decreases t - i,
    {
        r.push(l[i]);
        proof {
            assert(r@ =~= l@.subrange(f as int, i as int + 1));
        }
        i = i + 1;
    }
    proof {
        assert(r@ =~= line_slice(l@, from as nat, to as nat));
    }
    r
}

/// Split clipboard text at newline characters; always at least one
/// part.
pub fn split_newlines(s: &Vec<char>) -> (r: Vec<Vec<char>>)
    ensures
        lines_view(r@) == split_nl(s@),
        r@.len() >= 1,
{
    let ghost total = split_nl(s@);
    let mut acc: Vec<Vec<char>> = Vec::new();
    let mut cur: Vec<char> = Vec::new();
    let mut j: usize = 0;
    proof {
        lemma_split_nl_len(s@);
        assert(s@.skip(0) =~= s@);
        assert(lines_view(acc@) + seq![cur@ + split_nl(s@.skip(0))[0]] + split_nl(
            s@.skip(0),
        ).drop_first() =~= total);
    }
    while j < s.len()
        invariant
            j <= s@.len(),
            total == split_nl(s@),
            split_nl(s@.skip(j as int)).len() >= 1,
            lines_view(acc@) + seq![cur@ + split_nl(s@.skip(j as int))[0]] + split_nl(
                s@.skip(j as int),
            ).drop_first() =~= total,
        decreases s@.len() - j,
    {
        let ghost prev_acc = acc@;
        let ghost prev_cur = cur@;
        let ghost sj = split_nl(s@.skip(j as int));
        let ghost sj1 = split_nl(s@.skip(j as int + 1));
        proof {
            assert(s@.skip(j as int).drop_first() =~= s@.skip(j as int + 1));
            lemma_split_nl_len(s@.skip(j as int + 1));
            assert(s@.skip(j as int)[0] == s@[j as int]);
        }
        if s[j] == '\n' {
            proof {
                assert(sj == seq![Seq::<char>::empty()] + sj1);
                assert(sj[0] =~= Seq::<char>::empty());
                assert(sj.drop_first() =~= sj1);
                assert(prev_cur + sj[0] =~= prev_cur);
            }
            let done = cur;
            acc.push(done);
            cur = Vec::new();
            proof {
                assert(lines_view(acc@) =~= lines_view(prev_acc) + seq![prev_cur]);
                assert(lines_view(acc@) + seq![cur@ + sj1[0]] + sj1.drop_first() =~= lines_view(
                    prev_acc,
                ) + seq![prev_cur + sj[0]] + sj.drop_first());
            }
        } else {
            proof {
                assert(sj == seq![seq![s@[j as int]] + sj1[0]] + sj1.drop_first());
                assert(sj[0] == seq![s@[j as int]] + sj1[0]);
                assert(sj.drop_first() =~= sj1.drop_first());
            }
            cur.push(s[j]);
            proof {
                assert(cur@ + sj1[0] =~= prev_cur + sj[0]);
                assert(lines_view(acc@) + seq![cur@ + sj1[0]] + sj1.drop_first() =~= lines_view(
                    prev_acc,
                ) + seq![prev_cur + sj[0]] + sj.drop_first());
            }
        }
        j = j + 1;
    }
    proof {
        assert(s@.skip(s@.len() as int) =~= Seq::<char>::empty());
        lemma_split_nl_len(s@);
    }
    acc.push(cur);
    proof {
        assert(lines_view(acc@) =~= total);
    }
    acc
}

/// Build the selected text between two already-normalized positions,
/// as [`spec_selection_text`] describes it.
fn selection_text(
    content: &Vec<Vec<char>>,
    start: (usize, usize),
    end: (usize, usize),
    inclusive: bool,
) -> (r: Vec<char>)
    requires
        start.1 <= end.1,
    ensures
        r@ == spec_selection_text(
            lines_view(content@),
            crate::editor::pos_view(start),
            crate::editor::pos_view(end),
            if inclusive {
                1nat
            } else {
                0nat
            },
        ),
{
    let ghost linesv = lines_view(content@);
    let ghost sp = crate::editor::pos_view(start);
    let ghost ep = crate::editor::pos_view(end);
    let ghost extra: nat = if inclusive {
        1nat
    } else {
        0nat
    };
    let ghost total = spec_selection_text(linesv, sp, ep, extra);
    let mut acc: Vec<char> = Vec::new();
    let mut i = start.1;
    while i <= end.1 && i < content.len()
        invariant
            start.1 <= i,
            i <= end.1 + 1,
            linesv == lines_view(content@),
            sp == crate::editor::pos_view(start),
            ep == crate::editor::pos_view(end),
            extra == if inclusive {
                1nat
            } else {
                0nat
            },
            total == spec_selection_text(linesv, sp, ep, extra),
            acc@ + sel_text_from(linesv, sp, ep, extra, i as int) =~= total,
        decreases end.1 - i + 1,
    {
        let l = &content[i];
        let llen = l.len();
        let end_to = if end.0 >= llen {
            llen
        } else if inclusive {
            end.0 + 1
        } else {
            end.0
        };
        let ghost spec_to: nat = (ep.0 + extra) as nat;
        proof {
            assert(line_slice(l@, 0, end_to as nat) =~= line_slice(l@, 0, spec_to));
            assert(line_slice(l@, start.0 as nat, end_to as nat) =~= line_slice(
                l@,
                sp.0,
                spec_to,
            ));
        }
        let mut piece = if i == start.1 && i == end.1 {
            slice_line(l, start.0, end_to)
        } else if i == start.1 {
            slice_line(l, start.0, llen)
        } else if i == end.1 {
            slice_line(l, 0, end_to)
        } else {
            crate::buffer::clone_line(l)
        };
        proof {
            assert(piece@ == sel_piece(linesv, sp, ep, extra, i as int));
        }
        acc.append(&mut piece);
        if i != end.1 {
            acc.push('\n');
        }
        proof {
            assert(acc@ + sel_text_from(linesv, sp, ep, extra, i as int + 1) =~= total);
        }
        i = i + 1;
    }
    proof {
        assert(sel_text_from(linesv, sp, ep, extra, i as int) =~= Seq::<char>::empty());
        assert(acc@ =~= total);
    }
    acc
}

/// Remove the lines `from..=upto` and put one replacement line in
/// their place.
fn splice_lines(content: &mut Vec<Vec<char>>, from: usize, upto: usize, replacement: Vec<char>)
    requires
        from <= upto < old(content)@.len(),
    ensures
        lines_view(final(content)@) == lines_view(old(content)@).take(from as int) + seq![
            replacement@,
        ] + lines_view(old(content)@).skip(upto + 1),
{
    let ghost orig = content@;
    let n0 = content.len();
    proof {
        assert(upto < n0);
    }
    let count = upto - from + 1;
    let mut k: usize = 0;
    while k < count
        invariant
            k <= count,
            count == upto - from + 1,
            from <= upto < orig.len(),
            content@ =~= orig.take(from as int) + orig.skip(from + k),
        decreases count - k,
    {
        content.remove(from);
        proof {
            assert(content@ =~= orig.take(from as int) + orig.skip(from + k + 1));
        }
        k = k + 1;
    }
    content.insert(from, replacement);
    proof {
        assert(lines_view(content@) =~= lines_view(orig).take(from as int) + seq![replacement@]
            + lines_view(orig).skip(upto + 1));
    }
}

/// Insert the given lines, in order, starting at position `at`.
fn insert_lines_at(content: &mut Vec<Vec<char>>, at: usize, parts: Vec<Vec<char>>)
    requires
        at <= old(content)@.len(),
    ensures
        final(content)@ == old(content)@.take(at as int) + parts@ + old(content)@.skip(at as int),
{
    let ghost orig = content@;
    let ghost all = parts@;
    let mut rest = parts;
    while rest.len() > 0
        invariant
            at <= orig.len(),
            at <= content@.len(),
            rest@.len() <= all.len(),
            rest@ =~= all.take(rest@.len() as int),
            content@ =~= orig.take(at as int) + all.skip(rest@.len() as int) + orig.skip(at as int),
        decreases rest@.len(),
    {
        let ghost n = rest@.len() as int;
        let p = match rest.pop() {
            Some(p) => p,
            None => Vec::new(),
        };
        content.insert(at, p);
        proof {
            assert(p == all[n - 1]);
            assert(all.skip(n - 1) =~= seq![all[n - 1]] + all.skip(n));
            assert(rest@ =~= all.take(rest@.len() as int));
            assert(content@ =~= orig.take(at as int) + all.skip(rest@.len() as int) + orig.skip(
                at as int,
            ));
        }
    }
    proof {
        assert(content@ =~= orig.take(at as int) + all + orig.skip(at as int));
    }
}

impl Editor {
    /// Copy the visual-mode selection — the span between the visual
    /// anchor and the cursor, end character included — to the
    /// clipboard.
    pub fn copy_selection(&mut self) -> (eff: Effect)
        requires
            old(self).wf(),
        ensures
            final(self)@ == old(self)@,
            final(self).wf(),
            eff@ == EffectView::SetClipboard(
                spec_selection_text(
                    active_of(old(self)@).snap.lines,
                    norm_pair(
                        old(self)@.visual_start,
                        (active_of(old(self)@).snap.col, active_of(old(self)@).snap.line),
                    ).0,
                    norm_pair(
                        old(self)@.visual_start,
                        (active_of(old(self)@).snap.col, active_of(old(self)@).snap.line),
                    ).1,
                    1,
                ),
            ),
    {
        let idx = self.active_tab;
        let a = self.visual_start;
        let b = self.tabs[idx].cursor_position;
        let (start, end) = if a.1 < b.1 || (a.1 == b.1 && a.0 <= b.0) {
            (a, b)
        } else {
            (b, a)
        };
        let text = selection_text(&self.tabs[idx].content, start, end, true);
        self.note("Text copied to clipboard");
        proof {
            assert(self@ =~~= old(self)@);
        }
        Effect::SetClipboard(text)
    }

    /// Copy the mouse-drag selection — end character excluded — to
    /// the clipboard; nothing happens without an active drag.
    pub fn copy_selection_to_clipboard(&mut self) -> (eff: Option<Effect>)
        requires
            old(self).wf(),
        ensures
            final(self)@ == old(self)@,
            final(self).wf(),
            match (old(self)@.mouse_start, old(self)@.mouse_end) {
                (Some(a), Some(b)) => crate::editor::effect_view(eff) == Some(
                    EffectView::SetClipboard(
                        spec_selection_text(
                            active_of(old(self)@).snap.lines,
                            norm_pair(a, b).0,
                            norm_pair(a, b).1,
                            0,
                        ),
                    ),
                ),
                _ => eff is None,
            },
    {
        let idx = self.active_tab;
        let eff = match (self.mouse_selection_start, self.mouse_selection_end) {
            (Some(a), Some(b)) => {
                let (start, end) = if a.1 < b.1 || (a.1 == b.1 && a.0 <= b.0) {
                    (a, b)
                } else {
                    (b, a)
                };
                let text = selection_text(&self.tabs[idx].content, start, end, false);
                self.note("Text copied to clipboard");
                Some(Effect::SetClipboard(text))
            },
            _ => None,
        };
        proof {
            assert(self@ =~~= old(self)@);
        }
        eff
    }

    /// Delete the visual-mode selection, rejoining what survives of
    /// the start and end lines; the cursor lands at the selection
    /// start.
    pub fn delete_selection(&mut self)
        requires
            old(self).wf(),
        ensures
            final(self)@ == with_active(
                old(self)@,
                spec_delete_selection(
                    active_of(old(self)@),
                    old(self)@.visual_start,
                    (active_of(old(self)@).snap.col, active_of(old(self)@).snap.line),
                ),
            ),
            final(self).wf(),
    {
        let ghost target = with_active(
            old(self)@,
            spec_delete_selection(
                active_of(old(self)@),
                old(self)@.visual_start,
                (active_of(old(self)@).snap.col, active_of(old(self)@).snap.line),
            ),
        );
        let idx = self.active_tab;
        let a = self.visual_start;
        let t = &mut self.tabs[idx];
        let b = t.cursor_position;
        t.save_state();
        let (start, end) = if a.1 < b.1 || (a.1 == b.1 && a.0 <= b.0) {
            (a, b)
        } else {
            (b, a)
        };
        if start.1 >= t.content.len() {
            proof {
                assert(self@ =~~= target);
            }
            return ;
        }
        let e1 = if end.1 >= t.content.len() {
            t.content.len() - 1
        } else {
            end.1
        };
        let head = slice_line(&t.content[start.1], 0, start.0);
        let e1_len = t.content[e1].len();
        let cut_from = if end.0 >= e1_len {
            e1_len
        } else {
            end.0 + 1
        };
        let tail = slice_line(&t.content[e1], cut_from, e1_len);
        let mut joined = head;
        let mut tail2 = tail;
        joined.append(&mut tail2);
        let new_col = if start.0 > joined.len() {
            joined.len()
        } else {
            start.0
        };
        proof {
            let s = active_of(old(self)@).snap;
            assert(joined@ =~= line_slice(s.lines[start.1 as int], 0, start.0 as nat) + line_slice(
                s.lines[e1 as int],
                (end.0 + 1) as nat,
                s.lines[e1 as int].len(),
            ));
        }
        splice_lines(&mut t.content, start.1, e1, joined);
        t.cursor_position = (new_col, start.1);
        proof {
            let tv = spec_delete_selection(
                active_of(old(self)@),
                old(self)@.visual_start,
                (active_of(old(self)@).snap.col, active_of(old(self)@).snap.line),
            );
            assert(t@.snap.lines =~~= tv.snap.lines);
            assert(self@ =~~= target);
        }
    }

    /// Paste the clipboard text the application read, splicing its
    /// lines in after the cursor; the current line is split at the
    /// cursor and its tail becomes the line after the pasted text.
    pub fn paste_after_with(&mut self, clip: Vec<char>)
        requires
            old(self).wf(),
        ensures
            final(self)@ == with_active(
                old(self)@,
                spec_ensure_cursor_in_bounds(spec_paste_after(active_of(old(self)@), clip@)),
            ),
            final(self).wf(),
    {
        let ghost target = with_active(
            old(self)@,
            spec_ensure_cursor_in_bounds(spec_paste_after(active_of(old(self)@), clip@)),
        );
        let idx = self.active_tab;
        let t = &mut self.tabs[idx];
        t.save_state();
        let line_idx = t.cursor_position.1;
        let col = t.cursor_position.0;
        let llen = t.content[line_idx].len();
        let cut = if col > llen {
            llen
        } else {
            col
        };
        let right = t.content[line_idx].split_off(cut);
        let mut parts = split_newlines(&clip);
        let mut first = parts.remove(0);
        t.content[line_idx].append(&mut first);
        parts.push(right);
        let k = parts.len();
        let n1 = t.content.len();
        proof {
            assert(line_idx < n1);
        }
        insert_lines_at(&mut t.content, line_idx + 1, parts);
        let n2 = t.content.len();
        proof {
            assert(line_idx + k < n2);
        }
        t.cursor_position = (0, line_idx + k);
        proof {
            let tv = spec_paste_after(active_of(old(self)@), clip@);
            assert(t@.snap.lines =~~= tv.snap.lines);
        }
        t.ensure_cursor_in_bounds();
        proof {
            assert(self@ =~~= target);
        }
    }

    /// Insert the clipboard text the application read at the cursor:
    /// single-line text flows into the current line, multi-line text
    /// splits it around the pasted lines.
    pub fn paste_clipboard_with(&mut self, clip: Vec<char>)
        requires
            old(self).wf(),
        ensures
            final(self)@ == with_active(
                old(self)@,
                spec_paste_insert(active_of(old(self)@), clip@),
            ),
            final(self).wf(),
    {
        let ghost target = with_active(
            old(self)@,
            spec_paste_insert(active_of(old(self)@), clip@),
        );
        let idx = self.active_tab;
        let t = &mut self.tabs[idx];
        t.save_state();
        let line_idx = t.cursor_position.1;
        let col = t.cursor_position.0;
        let mut parts = split_newlines(&clip);
        if parts.len() == 1 {
            let mut tail = t.content[line_idx].split_off(col);
            let mut middle = match parts.pop() {
                Some(p) => p,
                None => Vec::new(),
            };
            let added = middle.len();
            t.content[line_idx].append(&mut middle);
            t.content[line_idx].append(&mut tail);
            let nl = t.content[line_idx].len();
            proof {
                assert(col + added <= nl);
            }
            let new_col = col + added;
            t.cursor_position = (new_col, line_idx);
            proof {
                lemma_split_nl_single(clip@);
                let tv = spec_paste_insert(active_of(old(self)@), clip@);
                assert(t@.snap.lines =~~= tv.snap.lines);
                assert(self@ =~~= target);
            }
        } else {
            let right = t.content[line_idx].split_off(col);
            let mut first = parts.remove(0);
            t.content[line_idx].append(&mut first);
            let mut last = match parts.pop() {
                Some(p) => p,
                None => Vec::new(),
            };
            let last_len = last.len();
            let mut right2 = right;
            last.append(&mut right2);
            parts.push(last);
            let k = parts.len();
            let n1 = t.content.len();
            proof {
                assert(line_idx < n1);
            }
            insert_lines_at(&mut t.content, line_idx + 1, parts);
            let n2 = t.content.len();
            proof {
                assert(line_idx + k < n2);
            }
            t.cursor_position = (last_len, line_idx + k);
            proof {
                let tv = spec_paste_insert(active_of(old(self)@), clip@);
                assert(t@.snap.lines =~~= tv.snap.lines);
                assert(self@ =~~= target);
            }
        }
    }
}

} // verus!
