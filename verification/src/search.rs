//! Search: case-insensitive lookup of the query in every line of the
//! active buffer, and cycling through the hits. Lowercasing is the
//! Unicode case folding the standard library implements; everything
//! around it is specified exactly in terms of that folding.

use vstd::prelude::*;
use crate::buffer::{spec_ensure_cursor_in_bounds, Snap, TabView};
use crate::editor::{active_of, with_active, Editor, EditorView, Mode};
use crate::text::{find_sub, occurs_at};

verus! {

/// The Unicode-lowercased image of a text, named so contracts can
/// speak of it; what it is on given characters is the standard
/// library's business.
pub uninterp spec fn lower_of(s: Seq<char>) -> Seq<char>;

/// Relies on str's to_lowercase: Unicode lowercasing, a function of
/// the characters alone.
#[verifier::external_body]
fn to_lower_chars(s: &Vec<char>) -> (r: Vec<char>)
    ensures
        r@ == lower_of(s@),
{
    let owned: String = s.iter().collect();
    owned.to_lowercase().chars().collect()
}

/// The first position at or after `at` where `needle` occurs in
/// `hay`, if any.
pub open spec fn find_from(hay: Seq<char>, needle: Seq<char>, at: int) -> Option<nat>
    decreases hay.len() - at + 1,
{
    if at < 0 || at + needle.len() > hay.len() {
        None
    } else if hay.subrange(at, at + needle.len()) == needle {
        Some(at as nat)
    } else {
        find_from(hay, needle, at + 1)
    }
}

/// The position of the first occurrence of `needle` in `hay`, if any.
pub open spec fn spec_find(hay: Seq<char>, needle: Seq<char>) -> Option<nat> {
    find_from(hay, needle, 0)
}

proof fn lemma_find_from_skip(hay: Seq<char>, needle: Seq<char>, k: int)
    requires
        0 <= k,
        forall|j: int| 0 <= j < k ==> !occurs_at(hay, needle, j),
    ensures
        spec_find(hay, needle) == find_from(hay, needle, k),
    decreases k,
{
    if k > 0 {
        lemma_find_from_skip(hay, needle, k - 1);
        assert(!occurs_at(hay, needle, k - 1));
        if k - 1 + needle.len() <= hay.len() {
            assert(hay.subrange(k - 1, k - 1 + needle.len()) != needle);
            assert(find_from(hay, needle, k - 1) == find_from(hay, needle, k));
        } else {
            assert(find_from(hay, needle, k - 1) is None);
            assert(find_from(hay, needle, k) is None);
        }
    }
}

/// The hits for a query: for each line holding the (lowercased) query
/// in its lowercased text, the pair of the line number and the first
/// hit column, in line order; `i` is the first line still to scan.
pub open spec fn search_results_from(lines: Seq<Seq<char>>, q: Seq<char>, i: int) -> Seq<
    (nat, nat),
>
    decreases lines.len() - i,
{
    if i < 0 || i >= lines.len() {
        Seq::<(nat, nat)>::empty()
    } else {
        let rest = search_results_from(lines, q, i + 1);
        match spec_find(lower_of(lines[i]), q) {
            Some(c) => seq![(i as nat, c)] + rest,
            None => rest,
        }
    }
}

/// All hits for a query over a buffer.
pub open spec fn spec_search_results(lines: Seq<Seq<char>>, q: Seq<char>) -> Seq<(nat, nat)> {
    search_results_from(lines, q, 0)
}

/// What running a search does: the hits are recomputed for the
/// current query, the hit index resets, and the cursor jumps to the
/// first hit (clamped into the buffer) when there is one.
pub open spec fn spec_perform_search(e: EditorView) -> EditorView {
    let t = active_of(e);
    let results = spec_search_results(t.snap.lines, lower_of(e.search_query));
    let e1 = EditorView { search_results: results, search_index: 0, ..e };
    if results.len() > 0 {
        let hit = results[0];
        with_active(
            e1,
            spec_ensure_cursor_in_bounds(
                TabView { snap: Snap { col: hit.1, line: hit.0, ..t.snap }, ..t },
            ),
        )
    } else {
        e1
    }
}

/// The editor after jumping to the hit at index `ni`: the hit index
/// is adopted and the cursor lands on the hit, clamped into the
/// buffer.
pub open spec fn spec_goto_hit(e: EditorView, ni: nat) -> EditorView {
    let t = active_of(e);
    let hit = e.search_results[ni as int];
    EditorView {
        search_index: ni,
        ..with_active(
            e,
            spec_ensure_cursor_in_bounds(
                TabView { snap: Snap { col: hit.1, line: hit.0, ..t.snap }, ..t },
            ),
        )
    }
}

/// What cycling to the next hit does: one step forward, wrapping; a
/// no-op without hits.
pub open spec fn spec_next_search_result(e: EditorView) -> EditorView {
    if e.search_results.len() > 0 {
        let ni: nat = if e.search_index + 1 >= e.search_results.len() {
            0
        } else {
            (e.search_index + 1) as nat
        };
        spec_goto_hit(e, ni)
    } else {
        e
    }
}

/// What cycling to the previous hit does: one step back, wrapping; a
/// no-op without hits.
pub open spec fn spec_previous_search_result(e: EditorView) -> EditorView {
    if e.search_results.len() > 0 {
        let ni: nat = if e.search_index == 0 {
            (e.search_results.len() - 1) as nat
        } else {
            (e.search_index - 1) as nat
        };
        spec_goto_hit(e, ni)
    } else {
        e
    }
}

impl Editor {
    /// Enter Search mode with a fresh query and no hits.
    pub fn enter_search_mode(&mut self)
        requires
            old(self).wf(),
        ensures
            final(self)@ == (EditorView {
                mode: Mode::Search,
                search_query: Seq::<char>::empty(),
                search_results: Seq::<(nat, nat)>::empty(),
                search_index: 0,
                ..old(self)@
            }),
            final(self).wf(),
    {
        self.mode = Mode::Search;
        self.search_query = Vec::new();
        self.search_results = Vec::new();
        self.current_search_index = 0;
        proof {
            assert(self@ =~~= (EditorView {
                mode: Mode::Search,
                search_query: Seq::<char>::empty(),
                search_results: Seq::<(nat, nat)>::empty(),
                search_index: 0,
                ..old(self)@
            }));
        }
    }

    /// Run the query against every line of the active buffer and jump
    /// to the first hit, if any.
    pub fn perform_search(&mut self)
        requires
            old(self).wf(),
        ensures
            final(self)@ == spec_perform_search(old(self)@),
            final(self).wf(),
    {
        let ghost target = spec_perform_search(old(self)@);
        let idx = self.active_tab;
        let ghost linesv = active_of(self@).snap.lines;
        let ghost lq = lower_of(self@.search_query);
        let ghost total = spec_search_results(linesv, lq);
        let lowq = to_lower_chars(&self.search_query);
        let mut results: Vec<(usize, usize)> = Vec::new();
        let n = self.tabs[idx].content.len();
        let mut i: usize = 0;
        proof {
            assert(results@.map_values(|p: (usize, usize)| crate::editor::pos_view(p))
                + search_results_from(linesv, lq, 0) =~= total);
        }
        while i < n
            invariant
                i <= n,
                idx == self.active_tab,
                *self == *old(self),
                self.wf(),
                n == active_of(self@).snap.lines.len(),
                linesv == active_of(self@).snap.lines,
                lq == lower_of(self@.search_query),
                lowq@ == lq,
                total == spec_search_results(linesv, lq),
                results@.map_values(|p: (usize, usize)| crate::editor::pos_view(p))
                    + search_results_from(linesv, lq, i as int) =~= total,
            decreases n - i,
        {
            let ghost prev = results@;
            let lowline = to_lower_chars(&self.tabs[idx].content[i]);
            proof {
                assert(lowline@ == lower_of(linesv[i as int]));
            }
            match find_sub(&lowline, &lowq) {
                Some(c) => {
                    proof {
                        lemma_find_from_skip(lowline@, lowq@, c as int);
                        assert(spec_find(lower_of(linesv[i as int]), lq) == Some(c as nat));
                    }
                    results.push((i, c));
                    proof {
                        assert(results@.map_values(|p: (usize, usize)| crate::editor::pos_view(p))
                            =~= prev.map_values(|p: (usize, usize)| crate::editor::pos_view(p))
                            + seq![(i as nat, c as nat)]);
                        assert(results@.map_values(|p: (usize, usize)| crate::editor::pos_view(p))
                            + search_results_from(linesv, lq, i as int + 1) =~= total);
                    }
                },
                None => {
                    proof {
                        lemma_find_from_skip(lowline@, lowq@, lowline@.len() as int + 1);
                        assert(spec_find(lower_of(linesv[i as int]), lq) is None);
                    }
                },
            }
            i = i + 1;
        }
        self.search_results = results;
        self.current_search_index = 0;
        proof {
            assert(search_results_from(linesv, lq, n as int) =~= Seq::<(nat, nat)>::empty());
            assert(self@.search_results =~= total);
        }
        if self.search_results.len() > 0 {
            let (line, col) = self.search_results[0];
            let t = &mut self.tabs[idx];
            t.cursor_position = (col, line);
            t.ensure_cursor_in_bounds();
        }
        proof {
            assert(self@ =~~= target);
        }
    }

    /// Jump to the next hit, wrapping past the last.
    pub fn next_search_result(&mut self)
        requires
            old(self).wf(),
        ensures
            final(self)@ == spec_next_search_result(old(self)@),
            final(self).wf(),
    {
        let len = self.search_results.len();
        if len > 0 {
            let ni = if self.current_search_index + 1 >= len {
                0
            } else {
                self.current_search_index + 1
            };
            self.current_search_index = ni;
            let (line, col) = self.search_results[ni];
            let idx = self.active_tab;
            let t = &mut self.tabs[idx];
            t.cursor_position = (col, line);
            t.ensure_cursor_in_bounds();
        }
        proof {
            assert(self@ =~~= spec_next_search_result(old(self)@));
        }
    }

    /// Jump to the previous hit, wrapping past the first.
    pub fn previous_search_result(&mut self)
        requires
            old(self).wf(),
        ensures
            final(self)@ == spec_previous_search_result(old(self)@),
            final(self).wf(),
    {
        let len = self.search_results.len();
        if len > 0 {
            let ni = if self.current_search_index == 0 {
                len - 1
            } else {
                self.current_search_index - 1
            };
            self.current_search_index = ni;
            let (line, col) = self.search_results[ni];
            let idx = self.active_tab;
            let t = &mut self.tabs[idx];
            t.cursor_position = (col, line);
            t.ensure_cursor_in_bounds();
        }
        proof {
            assert(self@ =~~= spec_previous_search_result(old(self)@));
        }
    }
}

} // verus!
