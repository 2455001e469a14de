//! The tray menu: its fixed catalog of entries and the actions that the
//! identifiers of its entries stand for.

use vstd::prelude::*;
use crate::text::same_text;

verus! {

/// What a recognised menu identifier asks for.
#[derive(Clone, Copy, Debug, PartialEq, Eq, Structural)]
pub enum MenuAction {
    Show,
    Hide,
    NewProject,
    Terminal,
    Achievements,
    Quit,
}

impl MenuAction {
    /// The identifier under which the action stands in the menu.
    pub open spec fn id_text(self) -> Seq<char> {
        match self {
            MenuAction::Show => "show"@,
            MenuAction::Hide => "hide"@,
            MenuAction::NewProject => "new_project"@,
            MenuAction::Terminal => "terminal"@,
            MenuAction::Achievements => "achievements"@,
            MenuAction::Quit => "quit"@,
        }
    }

    /// The label shown for the action.
    pub open spec fn label_text(self) -> Seq<char> {
        match self {
            MenuAction::Show => "Show AeThex-OS"@,
            MenuAction::Hide => "Hide to Tray"@,
            MenuAction::NewProject => "\u{1F4CB} New Project"@,
            MenuAction::Terminal => "\u{1F4BB} Quick Terminal"@,
            MenuAction::Achievements => "\u{1F3C6} Achievements"@,
            MenuAction::Quit => "Quit"@,
        }
    }

    pub fn id(self) -> (id: &'static str)
        ensures
            id@ == self.id_text(),
    {
        match self {
            MenuAction::Show => "show",
            MenuAction::Hide => "hide",
            MenuAction::NewProject => "new_project",
            MenuAction::Terminal => "terminal",
            MenuAction::Achievements => "achievements",
            MenuAction::Quit => "quit",
        }
    }

    pub fn label(self) -> (label: &'static str)
        ensures
            label@ == self.label_text(),
    {
        match self {
            MenuAction::Show => "Show AeThex-OS",
            MenuAction::Hide => "Hide to Tray",
            MenuAction::NewProject => "\u{1F4CB} New Project",
            MenuAction::Terminal => "\u{1F4BB} Quick Terminal",
            MenuAction::Achievements => "\u{1F3C6} Achievements",
            MenuAction::Quit => "Quit",
        }
    }

    /// The action that an identifier names, if it names one. Identifiers are
    /// compared exactly, character by character.
    pub fn from_id(id: &str) -> (action: Option<MenuAction>)
        ensures
            action == action_of(id@),
    {
        if same_text(id, "show") {
            Some(MenuAction::Show)
        } else if same_text(id, "hide") {
            Some(MenuAction::Hide)
        } else if same_text(id, "new_project") {
            Some(MenuAction::NewProject)
        } else if same_text(id, "terminal") {
            Some(MenuAction::Terminal)
        } else if same_text(id, "achievements") {
            Some(MenuAction::Achievements)
        } else if same_text(id, "quit") {
            Some(MenuAction::Quit)
        } else {
            None
        }
    }
}

/// The action that an identifier names: one of the six known identifiers
/// gives its action, every other text gives none.
pub open spec fn action_of(id: Seq<char>) -> Option<MenuAction> {
    if id == "show"@ {
        Some(MenuAction::Show)
    } else if id == "hide"@ {
        Some(MenuAction::Hide)
    } else if id == "new_project"@ {
        Some(MenuAction::NewProject)
    } else if id == "terminal"@ {
        Some(MenuAction::Terminal)
    } else if id == "achievements"@ {
        Some(MenuAction::Achievements)
    } else if id == "quit"@ {
        Some(MenuAction::Quit)
    } else {
        None
    }
}

/// The six identifiers are pairwise different and none is empty: no two
/// start with the same letter.
pub proof fn lemma_ids_distinct()
    ensures
        forall|a: MenuAction, b: MenuAction| a != b ==> #[trigger] a.id_text() != #[trigger] b.id_text(),
        forall|a: MenuAction| (#[trigger] a.id_text()).len() > 0,
{
    reveal_strlit("show");
    reveal_strlit("hide");
    reveal_strlit("new_project");
    reveal_strlit("terminal");
    reveal_strlit("achievements");
    reveal_strlit("quit");
    assert forall|a: MenuAction, b: MenuAction| a != b implies #[trigger] a.id_text() != #[trigger] b.id_text() by {
        if a.id_text() == b.id_text() {
            assert(a.id_text().len() == b.id_text().len());
            assert(a.id_text()[0] == b.id_text()[0]);
        }
    }
}

/// An identifier names an action exactly when it is that action's own
/// identifier.
pub proof fn lemma_action_of_id(a: MenuAction)
    ensures
        action_of(a.id_text()) == Some(a),
        forall|id: Seq<char>| action_of(id) == Some(a) <==> id == a.id_text(),
{
    lemma_ids_distinct();
    assert(MenuAction::Show.id_text() == "show"@);
    assert(MenuAction::Hide.id_text() == "hide"@);
    assert(MenuAction::NewProject.id_text() == "new_project"@);
    assert(MenuAction::Terminal.id_text() == "terminal"@);
    assert(MenuAction::Achievements.id_text() == "achievements"@);
}

/// Whether a menu entry can be selected or only divides the menu.
#[derive(Clone, Copy, Debug, PartialEq, Eq, Structural)]
pub enum EntryKind {
    Action,
    Separator,
}

/// One line of the menu. A separator has an empty identifier and an empty
/// label and is not enabled.
#[derive(Clone, Debug)]
pub struct MenuEntry {
    pub id: String,
    pub label: String,
    pub enabled: bool,
    pub kind: EntryKind,
}

/// A menu entry as a plain value.
pub ghost struct MenuEntryView {
    pub id: Seq<char>,
    pub label: Seq<char>,
    pub enabled: bool,
    pub kind: EntryKind,
}

impl View for MenuEntry {
    type V = MenuEntryView;

    open spec fn view(&self) -> MenuEntryView {
        MenuEntryView { id: self.id@, label: self.label@, enabled: self.enabled, kind: self.kind }
    }
}

impl MenuEntry {
    /// The enabled entry under which an action stands in the menu.
    pub fn action(action: MenuAction) -> (entry: MenuEntry)
        ensures
            entry@ == action_entry(action),
    {
        MenuEntry {
            id: action.id().to_owned(),
            label: action.label().to_owned(),
            enabled: true,
            kind: EntryKind::Action,
        }
    }

    /// A dividing line.
    pub fn separator() -> (entry: MenuEntry)
        ensures
            entry@ == separator_entry(),
    {
        MenuEntry { id: String::new(), label: String::new(), enabled: false, kind: EntryKind::Separator }
    }
}

pub open spec fn action_entry(action: MenuAction) -> MenuEntryView {
    MenuEntryView {
        id: action.id_text(),
        label: action.label_text(),
        enabled: true,
        kind: EntryKind::Action,
    }
}

pub open spec fn separator_entry() -> MenuEntryView {
    MenuEntryView { id: Seq::empty(), label: Seq::empty(), enabled: false, kind: EntryKind::Separator }
}

/// The menu from top to bottom: show, hide, a separator, the three
/// applications, a separator, quit.
pub open spec fn catalog() -> Seq<MenuEntryView> {
    seq![
        action_entry(MenuAction::Show),
        action_entry(MenuAction::Hide),
        separator_entry(),
        action_entry(MenuAction::NewProject),
        action_entry(MenuAction::Terminal),
        action_entry(MenuAction::Achievements),
        separator_entry(),
        action_entry(MenuAction::Quit),
    ]
}

/// A menu is well formed when its separators carry no identifier, its
/// actions carry one, and no identifier stands on two entries.
pub open spec fn well_formed(entries: Seq<MenuEntryView>) -> bool {
    &&& forall|i: int|
        0 <= i < entries.len() ==> ((#[trigger] entries[i]).kind == EntryKind::Separator
            <==> entries[i].id.len() == 0)
    &&& forall|i: int, j: int|
        0 <= i < j < entries.len() && (#[trigger] entries[i]).kind == EntryKind::Action
            ==> entries[i].id != (#[trigger] entries[j]).id
}

/// The ordered entries of the tray menu, fixed once built.
#[derive(Clone, Debug)]
pub struct MenuModel {
    entries: Vec<MenuEntry>,
}

impl View for MenuModel {
    type V = Seq<MenuEntryView>;

    closed spec fn view(&self) -> Seq<MenuEntryView> {
        self.entries@.map_values(|e: MenuEntry| e@)
    }
}

impl MenuModel {
    /// Builds the menu. The result is always the same catalog.
    pub fn build() -> (menu: MenuModel)
        ensures
            menu@ == catalog(),
            well_formed(menu@),
    {
        let mut entries: Vec<MenuEntry> = Vec::new();
        entries.push(MenuEntry::action(MenuAction::Show));
        entries.push(MenuEntry::action(MenuAction::Hide));
        entries.push(MenuEntry::separator());
        entries.push(MenuEntry::action(MenuAction::NewProject));
        entries.push(MenuEntry::action(MenuAction::Terminal));
        entries.push(MenuEntry::action(MenuAction::Achievements));
        entries.push(MenuEntry::separator());
        entries.push(MenuEntry::action(MenuAction::Quit));
        let menu = MenuModel { entries };
        proof {
            assert(menu@ =~= catalog());
            lemma_catalog_well_formed();
        }
        menu
    }

    /// The number of entries, separators included.
    pub fn len(&self) -> (n: usize)
        ensures
            n == self@.len(),
    {
        self.entries.len()
    }

    /// The entry at a position counted from the top, if there is one.
    pub fn entry(&self, index: usize) -> (entry: Option<&MenuEntry>)
        ensures
            index < self@.len() ==> entry.is_some() && entry.unwrap()@ == self@[index as int],
            index >= self@.len() ==> entry.is_none(),
    {
        if index < self.entries.len() {
            Some(&self.entries[index])
        } else {
            None
        }
    }
}

/// The catalog is well formed.
pub proof fn lemma_catalog_well_formed()
    ensures
        well_formed(catalog()),
{
    lemma_ids_distinct();
}

/// Every action stands in the catalog, and every entry of the catalog that
/// can be selected names an action.
pub proof fn lemma_catalog_covers_actions(a: MenuAction)
    ensures
        exists|i: int| 0 <= i < catalog().len() && #[trigger] catalog()[i] == action_entry(a),
        forall|i: int|
            0 <= i < catalog().len() && (#[trigger] catalog()[i]).kind == EntryKind::Action
                ==> action_of(catalog()[i].id).is_some(),
{
    let c = catalog();
    assert(c[0] == action_entry(MenuAction::Show));
    assert(c[1] == action_entry(MenuAction::Hide));
    assert(c[3] == action_entry(MenuAction::NewProject));
    assert(c[4] == action_entry(MenuAction::Terminal));
    assert(c[5] == action_entry(MenuAction::Achievements));
    assert(c[7] == action_entry(MenuAction::Quit));
    lemma_action_of_id(MenuAction::Show);
    lemma_action_of_id(MenuAction::Hide);
    lemma_action_of_id(MenuAction::NewProject);
    lemma_action_of_id(MenuAction::Terminal);
    lemma_action_of_id(MenuAction::Achievements);
    lemma_action_of_id(MenuAction::Quit);
}

} // verus!
