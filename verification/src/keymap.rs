//! Keybindings: named editor actions, per-mode chord tables, the
//! first-match lookup the dispatcher uses, and the prefix query that
//! drives multi-key chords such as `dd`.

use vstd::prelude::*;
use crate::text::{chars_of, chars_eq, starts_with};

verus! {

/// A named action a chord can be bound to. Unknown names in a user's
/// configuration simply bind to nothing.
#[derive(Clone, Copy, PartialEq, Eq, Structural, Debug)]
pub enum Action {
    EnterInsertMode,
    Append,
    OpenLineBelow,
    OpenLineAbove,
    DeleteLine,
    YankLine,
    PasteAfter,
    EnterVisualMode,
    EnterCommandMode,
    ToggleDebugMenu,
    EnterDirectoryNavMode,
    EnterSearchMode,
    NextSearchResult,
    PreviousSearchResult,
    CopySelection,
    PasteClipboard,
    Undo,
    Redo,
    ToggleSidebar,
    NextTab,
    PreviousTab,
    SwitchToTab(usize),
    NewTab,
    CloseTab,
    ToggleMinimap,
    ExitInsertMode,
    ExitVisualMode,
    YankSelection,
    DeleteSelection,
    ExecuteCommand,
    ExitCommandMode,
    SelectFile,
    ExitFileSelectMode,
    ExecuteSearch,
    ExitSearchMode,
}

/// One chord-to-action binding.
pub struct Binding {
    pub chord: Vec<char>,
    pub action: Action,
}

/// A binding table as the mathematics sees it: chord text paired with
/// the bound action, in table order.
pub open spec fn bindings_view(bs: Seq<Binding>) -> Seq<(Seq<char>, Action)> {
    bs.map_values(|b: Binding| (b.chord@, b.action))
}

/// The action the first binding with this exact chord names, if any.
pub open spec fn spec_lookup(bs: Seq<(Seq<char>, Action)>, chord: Seq<char>) -> Option<Action>
    decreases bs.len(),
{
    if bs.len() == 0 {
        None
    } else if bs[0].0 == chord {
        Some(bs[0].1)
    } else {
        spec_lookup(bs.drop_first(), chord)
    }
}

/// Whether some bound chord starts with `chord` — the test that makes
/// the dispatcher buffer a key and wait for the rest of a compound
/// chord.
pub open spec fn spec_has_prefix(bs: Seq<(Seq<char>, Action)>, chord: Seq<char>) -> bool {
    exists|i: int|
        0 <= i < bs.len() && chord.len() <= (#[trigger] bs[i].0).len() && bs[i].0.take(
            chord.len() as int,
        ) == chord
}

proof fn lemma_lookup_found(bs: Seq<(Seq<char>, Action)>, chord: Seq<char>, i: int)
    requires
        0 <= i < bs.len(),
        bs[i].0 == chord,
        forall|j: int| 0 <= j < i ==> (#[trigger] bs[j]).0 != chord,
    ensures
        spec_lookup(bs, chord) == Some(bs[i].1),
    decreases i,
{
    if i > 0 {
        lemma_lookup_found(bs.drop_first(), chord, i - 1);
    }
}

proof fn lemma_lookup_missing(bs: Seq<(Seq<char>, Action)>, chord: Seq<char>)
    requires
        forall|j: int| 0 <= j < bs.len() ==> (#[trigger] bs[j]).0 != chord,
    ensures
        spec_lookup(bs, chord) is None,
    decreases bs.len(),
{
    if bs.len() > 0 {
        lemma_lookup_missing(bs.drop_first(), chord);
    }
}

/// Find the action bound to a chord, scanning the table in order.
pub fn lookup(bindings: &Vec<Binding>, chord: &Vec<char>) -> (r: Option<Action>)
    ensures
        r == spec_lookup(bindings_view(bindings@), chord@),
{
    let mut i: usize = 0;
    while i < bindings.len()
        invariant
            i <= bindings@.len(),
            forall|j: int| 0 <= j < i ==> (#[trigger] bindings_view(bindings@)[j]).0 != chord@,
        decreases bindings@.len() - i,
    {
        if chars_eq(&bindings[i].chord, chord) {
            proof {
                lemma_lookup_found(bindings_view(bindings@), chord@, i as int);
            }
            return Some(bindings[i].action);
        }
        i = i + 1;
    }
    proof {
        lemma_lookup_missing(bindings_view(bindings@), chord@);
    }
    None
}

/// Whether any bound chord starts with `chord`.
pub fn has_prefix(bindings: &Vec<Binding>, chord: &Vec<char>) -> (r: bool)
    ensures
        r == spec_has_prefix(bindings_view(bindings@), chord@),
{
    let mut i: usize = 0;
    while i < bindings.len()
        invariant
            i <= bindings@.len(),
            forall|j: int| 0 <= j < i ==> !(chord@.len() <= (#[trigger] bindings_view(
                bindings@,
            )[j].0).len() && bindings_view(bindings@)[j].0.take(chord@.len() as int) == chord@),
        decreases bindings@.len() - i,
    {
        if starts_with(&bindings[i].chord, chord) {
            proof {
                let bv = bindings_view(bindings@);
                assert(chord@.len() <= (bv[i as int]).0.len() && bv[i as int].0.take(
                    chord@.len() as int,
                ) == chord@);
            }
            return true;
        }
        i = i + 1;
    }
    false
}

/// The per-mode chord tables; each mode resolves keys against its own
/// table, and users may remap any of them.
pub struct Keybindings {
    pub normal_mode: Vec<Binding>,
    pub insert_mode: Vec<Binding>,
    pub visual_mode: Vec<Binding>,
    pub command_mode: Vec<Binding>,
    pub file_select_mode: Vec<Binding>,
    pub search_mode: Vec<Binding>,
    pub tab_mode: Vec<Binding>,
}

/// Mathematical image of the whole keymap.
#[verifier::ext_equal]
pub ghost struct KeymapView {
    pub normal: Seq<(Seq<char>, Action)>,
    pub insert: Seq<(Seq<char>, Action)>,
    pub visual: Seq<(Seq<char>, Action)>,
    pub command: Seq<(Seq<char>, Action)>,
    pub file_select: Seq<(Seq<char>, Action)>,
    pub search: Seq<(Seq<char>, Action)>,
    pub tab: Seq<(Seq<char>, Action)>,
}

impl View for Keybindings {
    type V = KeymapView;

    open spec fn view(&self) -> KeymapView {
        KeymapView {
            normal: bindings_view(self.normal_mode@),
            insert: bindings_view(self.insert_mode@),
            visual: bindings_view(self.visual_mode@),
            command: bindings_view(self.command_mode@),
            file_select: bindings_view(self.file_select_mode@),
            search: bindings_view(self.search_mode@),
            tab: bindings_view(self.tab_mode@),
        }
    }
}

/// The built-in Normal-mode table.
pub open spec fn spec_default_normal() -> Seq<(Seq<char>, Action)> {
    seq![
        ("dd"@, Action::DeleteLine),
        ("i"@, Action::EnterInsertMode),
        ("Insert"@, Action::EnterInsertMode),
        ("a"@, Action::Append),
        ("o"@, Action::OpenLineBelow),
        ("O"@, Action::OpenLineAbove),
        ("yy"@, Action::YankLine),
        ("p"@, Action::PasteAfter),
        ("v"@, Action::EnterVisualMode),
        (":"@, Action::EnterCommandMode),
        ("Ctrl+b"@, Action::ToggleDebugMenu),
        ("Ctrl+e"@, Action::ToggleSidebar),
        ("/"@, Action::EnterSearchMode),
        ("n"@, Action::NextSearchResult),
        ("N"@, Action::PreviousSearchResult),
        ("Ctrl+y"@, Action::CopySelection),
        ("Ctrl+p"@, Action::PasteClipboard),
        ("Ctrl+u"@, Action::Undo),
        ("Ctrl+r"@, Action::Redo),
        ("Tab"@, Action::NextTab),
        ("F1"@, Action::SwitchToTab(0)),
        ("F2"@, Action::SwitchToTab(1)),
        ("F3"@, Action::SwitchToTab(2)),
        ("F4"@, Action::SwitchToTab(3)),
        ("F5"@, Action::SwitchToTab(4)),
        ("F6"@, Action::SwitchToTab(5)),
        ("F7"@, Action::SwitchToTab(6)),
        ("F8"@, Action::SwitchToTab(7)),
        ("F9"@, Action::SwitchToTab(8)),
        ("Ctrl+t"@, Action::NewTab),
        ("Ctrl+w"@, Action::CloseTab),
        ("Ctrl+Shift+Tab"@, Action::PreviousTab),
        ("Ctrl+m"@, Action::ToggleMinimap),
    ]
}

/// The built-in Insert-mode table.
pub open spec fn spec_default_insert() -> Seq<(Seq<char>, Action)> {
    seq![("Esc"@, Action::ExitInsertMode)]
}

/// The built-in Visual-mode table.
pub open spec fn spec_default_visual() -> Seq<(Seq<char>, Action)> {
    seq![
        ("Esc"@, Action::ExitVisualMode),
        ("y"@, Action::YankSelection),
        ("d"@, Action::DeleteSelection),
    ]
}

/// The built-in Command-mode table.
pub open spec fn spec_default_command() -> Seq<(Seq<char>, Action)> {
    seq![("Enter"@, Action::ExecuteCommand), ("Esc"@, Action::ExitCommandMode)]
}

/// The built-in file-selection table.
pub open spec fn spec_default_file_select() -> Seq<(Seq<char>, Action)> {
    seq![("Enter"@, Action::SelectFile), ("Esc"@, Action::ExitFileSelectMode)]
}

/// The built-in Search-mode table.
pub open spec fn spec_default_search() -> Seq<(Seq<char>, Action)> {
    seq![("Enter"@, Action::ExecuteSearch), ("Esc"@, Action::ExitSearchMode)]
}

/// How the default Normal-mode table resolves the chords around the
/// compound `dd`: `d` alone is bound to nothing but is a prefix of a
/// binding, `dd` is bound to deleting the line, and neither `dx` nor
/// `x` is bound to, or a prefix of, anything.
#[verifier::rlimit(60)]
pub proof fn lemma_default_chord_facts()
    ensures
        spec_lookup(spec_default_normal(), seq!['d']) is None,
        spec_has_prefix(spec_default_normal(), seq!['d']),
        spec_lookup(spec_default_normal(), seq!['d', 'd']) == Some(Action::DeleteLine),
        spec_lookup(spec_default_normal(), seq!['d', 'x']) is None,
        !spec_has_prefix(spec_default_normal(), seq!['d', 'x']),
        spec_lookup(spec_default_normal(), seq!['x']) is None,
        !spec_has_prefix(spec_default_normal(), seq!['x']),
{
    reveal_strlit("dd");
    reveal_strlit("i");
    reveal_strlit("Insert");
    reveal_strlit("a");
    reveal_strlit("o");
    reveal_strlit("O");
    reveal_strlit("yy");
    reveal_strlit("p");
    reveal_strlit("v");
    reveal_strlit(":");
    reveal_strlit("Ctrl+b");
    reveal_strlit("Ctrl+e");
    reveal_strlit("/");
    reveal_strlit("n");
    reveal_strlit("N");
    reveal_strlit("Ctrl+y");
    reveal_strlit("Ctrl+p");
    reveal_strlit("Ctrl+u");
    reveal_strlit("Ctrl+r");
    reveal_strlit("Tab");
    reveal_strlit("F1");
    reveal_strlit("F2");
    reveal_strlit("F3");
    reveal_strlit("F4");
    reveal_strlit("F5");
    reveal_strlit("F6");
    reveal_strlit("F7");
    reveal_strlit("F8");
    reveal_strlit("F9");
    reveal_strlit("Ctrl+t");
    reveal_strlit("Ctrl+w");
    reveal_strlit("Ctrl+Shift+Tab");
    reveal_strlit("Ctrl+m");
    let bs = spec_default_normal();
    assert(bs[0].0 == "dd"@ && "dd"@ =~= seq!['d', 'd']);
    assert(bs[0].0.len() >= 1 && bs[0].0.take(1) =~= seq!['d']);
    assert(spec_has_prefix(bs, seq!['d']));
    assert(spec_lookup(bs, seq!['d', 'd']) == Some(Action::DeleteLine));
    assert forall|j: int| 0 <= j < bs.len() implies (#[trigger] bs[j]).0 != seq!['d'] by {
        if bs[j].0 == seq!['d'] {
            assert(bs[j].0.len() == 1 && bs[j].0[0] == 'd');
        }
    }
    lemma_lookup_missing(bs, seq!['d']);
    assert forall|j: int| 0 <= j < bs.len() implies (#[trigger] bs[j]).0 != seq!['d', 'x'] by {
        if bs[j].0 == seq!['d', 'x'] {
            assert(bs[j].0.len() == 2 && bs[j].0[0] == 'd' && bs[j].0[1] == 'x');
        }
    }
    lemma_lookup_missing(bs, seq!['d', 'x']);
    assert forall|j: int| 0 <= j < bs.len() implies (#[trigger] bs[j]).0 != seq!['x'] by {
        if bs[j].0 == seq!['x'] {
            assert(bs[j].0.len() == 1 && bs[j].0[0] == 'x');
        }
    }
    lemma_lookup_missing(bs, seq!['x']);
    assert forall|i: int| 0 <= i < bs.len() implies !(seq!['d', 'x'].len() <= (
    #[trigger] bs[i].0).len() && bs[i].0.take(2) == seq!['d', 'x']) by {
        if seq!['d', 'x'].len() <= bs[i].0.len() && bs[i].0.take(2) == seq!['d', 'x'] {
            assert(bs[i].0.take(2)[0] == bs[i].0[0]);
            assert(bs[i].0.take(2)[1] == bs[i].0[1]);
            assert(bs[i].0[0] == 'd' && bs[i].0[1] == 'x');
        }
    }
    assert forall|i: int| 0 <= i < bs.len() implies !(seq!['x'].len() <= (
    #[trigger] bs[i].0).len() && bs[i].0.take(1) == seq!['x']) by {
        if seq!['x'].len() <= bs[i].0.len() && bs[i].0.take(1) == seq!['x'] {
            assert(bs[i].0.take(1)[0] == bs[i].0[0]);
            assert(bs[i].0[0] == 'x');
        }
    }
}

/// Build one binding from a chord literal.
fn binding(chord: &str, action: Action) -> (b: Binding)
    ensures
        b.chord@ == chord@,
        b.action == action,
{
    Binding { chord: chars_of(chord), action }
}

impl Keybindings {
    /// The built-in tables, used whenever no user configuration is
    /// available.
    pub fn default() -> (kb: Keybindings)
        ensures
            kb@.normal == spec_default_normal(),
            kb@.insert == spec_default_insert(),
            kb@.visual == spec_default_visual(),
            kb@.command == spec_default_command(),
            kb@.file_select == spec_default_file_select(),
            kb@.search == spec_default_search(),
            kb@.tab == Seq::<(Seq<char>, Action)>::empty(),
    {
        let mut normal_mode: Vec<Binding> = Vec::new();
        normal_mode.push(binding("dd", Action::DeleteLine));
        normal_mode.push(binding("i", Action::EnterInsertMode));
        normal_mode.push(binding("Insert", Action::EnterInsertMode));
        normal_mode.push(binding("a", Action::Append));
        normal_mode.push(binding("o", Action::OpenLineBelow));
        normal_mode.push(binding("O", Action::OpenLineAbove));
        normal_mode.push(binding("yy", Action::YankLine));
        normal_mode.push(binding("p", Action::PasteAfter));
        normal_mode.push(binding("v", Action::EnterVisualMode));
        normal_mode.push(binding(":", Action::EnterCommandMode));
        normal_mode.push(binding("Ctrl+b", Action::ToggleDebugMenu));
        normal_mode.push(binding("Ctrl+e", Action::ToggleSidebar));
        normal_mode.push(binding("/", Action::EnterSearchMode));
        normal_mode.push(binding("n", Action::NextSearchResult));
        normal_mode.push(binding("N", Action::PreviousSearchResult));
        normal_mode.push(binding("Ctrl+y", Action::CopySelection));
        normal_mode.push(binding("Ctrl+p", Action::PasteClipboard));
        normal_mode.push(binding("Ctrl+u", Action::Undo));
        normal_mode.push(binding("Ctrl+r", Action::Redo));
        normal_mode.push(binding("Tab", Action::NextTab));
        normal_mode.push(binding("F1", Action::SwitchToTab(0)));
        normal_mode.push(binding("F2", Action::SwitchToTab(1)));
        normal_mode.push(binding("F3", Action::SwitchToTab(2)));
        normal_mode.push(binding("F4", Action::SwitchToTab(3)));
        normal_mode.push(binding("F5", Action::SwitchToTab(4)));
        normal_mode.push(binding("F6", Action::SwitchToTab(5)));
        normal_mode.push(binding("F7", Action::SwitchToTab(6)));
        normal_mode.push(binding("F8", Action::SwitchToTab(7)));
        normal_mode.push(binding("F9", Action::SwitchToTab(8)));
        normal_mode.push(binding("Ctrl+t", Action::NewTab));
        normal_mode.push(binding("Ctrl+w", Action::CloseTab));
        normal_mode.push(binding("Ctrl+Shift+Tab", Action::PreviousTab));
        normal_mode.push(binding("Ctrl+m", Action::ToggleMinimap));

        let mut insert_mode: Vec<Binding> = Vec::new();
        insert_mode.push(binding("Esc", Action::ExitInsertMode));

        let mut visual_mode: Vec<Binding> = Vec::new();
        visual_mode.push(binding("Esc", Action::ExitVisualMode));
        visual_mode.push(binding("y", Action::YankSelection));
        visual_mode.push(binding("d", Action::DeleteSelection));

        let mut command_mode: Vec<Binding> = Vec::new();
        command_mode.push(binding("Enter", Action::ExecuteCommand));
        command_mode.push(binding("Esc", Action::ExitCommandMode));

        let mut file_select_mode: Vec<Binding> = Vec::new();
        file_select_mode.push(binding("Enter", Action::SelectFile));
        file_select_mode.push(binding("Esc", Action::ExitFileSelectMode));

        let mut search_mode: Vec<Binding> = Vec::new();
        search_mode.push(binding("Enter", Action::ExecuteSearch));
        search_mode.push(binding("Esc", Action::ExitSearchMode));

        let tab_mode: Vec<Binding> = Vec::new();

        let kb = Keybindings {
            normal_mode,
            insert_mode,
            visual_mode,
            command_mode,
            file_select_mode,
            search_mode,
            tab_mode,
        };
        proof {
            assert(kb@.normal =~= spec_default_normal());
            assert(kb@.insert =~= spec_default_insert());
            assert(kb@.visual =~= spec_default_visual());
            assert(kb@.command =~= spec_default_command());
            assert(kb@.file_select =~= spec_default_file_select());
            assert(kb@.search =~= spec_default_search());
            assert(kb@.tab =~= Seq::<(Seq<char>, Action)>::empty());
        }
        kb
    }
}

} // verus!
