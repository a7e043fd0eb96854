//! The directory browser's pure state: a listing, a selection index,
//! and the moves over it. Reading directories is the filesystem
//! collaborator's job; it hands listings in as plain values.

use vstd::prelude::*;
use vstd::string::StringExecFns;

verus! {

/// One entry of a directory listing, as the filesystem collaborator
/// reports it.
pub struct FileEntry {
    pub path: String,
    pub is_dir: bool,
}

/// A listing as the mathematics sees it: path text paired with the
/// directory flag.
pub open spec fn entries_view(es: Seq<FileEntry>) -> Seq<(Seq<char>, bool)> {
    es.map_values(|e: FileEntry| (e.path@, e.is_dir))
}

/// Mathematical image of the directory browser.
#[verifier::ext_equal]
pub ghost struct SelectorView {
    pub dir: Seq<char>,
    pub entries: Seq<(Seq<char>, bool)>,
    pub selected: nat,
    pub parent: Option<nat>,
}

/// The directory browser: the current directory, its listing with a
/// leading parent entry, and the selected index.
pub struct FileSelector {
    pub current_dir: String,
    pub entries: Vec<FileEntry>,
    pub selected_index: usize,
    pub parent_dir_index: Option<usize>,
}

impl View for FileSelector {
    type V = SelectorView;

    open spec fn view(&self) -> SelectorView {
        SelectorView {
            dir: self.current_dir@,
            entries: entries_view(self.entries@),
            selected: self.selected_index as nat,
            parent: match self.parent_dir_index {
                Some(i) => Some(i as nat),
                None => None,
            },
        }
    }
}

/// What selecting an entry yields: descend into a directory (the
/// caller lists it and rebuilds the browser), open a file, or nothing
/// when the selection is out of range.
pub enum SelectorOutcome {
    OpenDirectory(String),
    OpenFile(String),
    Nothing,
}

impl FileSelector {
    /// The selection always names an entry; a browser always holds at
    /// least the parent entry.
    pub open spec fn wf(&self) -> bool {
        &&& 1 <= self@.entries.len()
        &&& self@.selected < self@.entries.len()
    }

    /// Build a browser for a directory from its listing; a parent
    /// entry is put first and starts selected.
    pub fn from_entries(dir: String, listing: Vec<FileEntry>) -> (s: FileSelector)
        ensures
            s.wf(),
            s@.dir == dir@,
            s@.entries == seq![(dir@ + "/.."@, true)] + entries_view(listing@),
            s@.selected == 0,
            s@.parent == Some(0nat),
    {
        let ghost listing_entries = entries_view(listing@);
        let parent_path = dir.clone().concat("/..");
        let mut entries: Vec<FileEntry> = Vec::new();
        entries.push(FileEntry { path: parent_path, is_dir: true });
        let mut rest = listing;
        entries.append(&mut rest);
        let s = FileSelector {
            current_dir: dir,
            entries,
            selected_index: 0,
            parent_dir_index: Some(0),
        };
        proof {
            assert(s@.entries =~= seq![(s.current_dir@ + "/.."@, true)] + listing_entries);
        }
        s
    }

    /// Move the selection up one entry, stopping at the top.
    pub fn up(&mut self)
        ensures
            final(self)@ == (SelectorView {
                selected: if old(self)@.selected > 0 {
                    (old(self)@.selected - 1) as nat
                } else {
                    0
                },
                ..old(self)@
            }),
            old(self).wf() ==> final(self).wf(),
    {
        if self.selected_index > 0 {
            self.selected_index = self.selected_index - 1;
        }
        proof {
            assert(self@ =~~= (SelectorView {
                selected: if old(self)@.selected > 0 {
                    (old(self)@.selected - 1) as nat
                } else {
                    0
                },
                ..old(self)@
            }));
        }
    }

    /// Move the selection down one entry, stopping at the bottom.
    pub fn down(&mut self)
        requires
            old(self).wf(),
        ensures
            final(self)@ == (SelectorView {
                selected: if old(self)@.selected + 1 < old(self)@.entries.len() {
                    (old(self)@.selected + 1) as nat
                } else {
                    old(self)@.selected
                },
                ..old(self)@
            }),
            final(self).wf(),
    {
        if self.selected_index < self.entries.len() - 1 {
            self.selected_index = self.selected_index + 1;
        }
        proof {
            assert(self@ =~~= (SelectorView {
                selected: if old(self)@.selected + 1 < old(self)@.entries.len() {
                    (old(self)@.selected + 1) as nat
                } else {
                    old(self)@.selected
                },
                ..old(self)@
            }));
        }
    }

    /// What selecting the highlighted entry means: a directory asks
    /// the caller to list it, a file is opened, an out-of-range
    /// selection does nothing.
    pub fn enter(&self) -> (r: SelectorOutcome)
        ensures
            ({
                let v = self@;
                if v.selected < v.entries.len() {
                    if v.entries[v.selected as int].1 {
                        r matches SelectorOutcome::OpenDirectory(p)
                            && p@ == v.entries[v.selected as int].0
                    } else {
                        r matches SelectorOutcome::OpenFile(p)
                            && p@ == v.entries[v.selected as int].0
                    }
                } else {
                    r is Nothing
                }
            }),
    {
        if self.selected_index < self.entries.len() {
            let e = &self.entries[self.selected_index];
            if e.is_dir {
                SelectorOutcome::OpenDirectory(e.path.clone())
            } else {
                SelectorOutcome::OpenFile(e.path.clone())
            }
        } else {
            SelectorOutcome::Nothing
        }
    }
}

} // verus!
