//! A workspace of named tabs. Each tab owns its own task list and its
//! own details-visibility flag; the workspace tracks which tab is
//! active. Switching tabs never touches any tab's state, so each tab
//! remembers its own cursor across switches.

use vstd::prelude::*;

verus! {

use crate::selectable_list::{SelectableList, next_index, prev_index};

/// Which way a navigation step moves the cursor of the active tab.
#[derive(Clone, Copy, PartialEq, Eq, Structural, Debug)]
pub enum Direction {
    Next,
    Previous,
}

/// A named category owning one task list and one details-visibility
/// flag.
pub struct Tab {
    pub label: String,
    pub tasks: SelectableList<String>,
    pub details_visible: bool,
}

impl Tab {
    /// A tab is well formed when its task list is.
    pub open spec fn wf(&self) -> bool {
        self.tasks.wf()
    }
}

/// The tab sequence after a navigation step on the tab at `a`: only
/// that tab's cursor moves, by one circular step in `dir`.
pub open spec fn navigated_tabs(tabs: Seq<Tab>, a: int, dir: Direction) -> Seq<Tab> {
    let t = tabs[a];
    let sel = match dir {
        Direction::Next => next_index(t.tasks.selected, t.tasks.items@.len()),
        Direction::Previous => prev_index(t.tasks.selected, t.tasks.items@.len()),
    };
    tabs.update(
        a,
        Tab { tasks: SelectableList { items: t.tasks.items, selected: sel }, ..t },
    )
}

/// The tab sequence after toggling details on the tab at `a`: only that
/// tab's flag flips.
pub open spec fn toggled_tabs(tabs: Seq<Tab>, a: int) -> Seq<Tab> {
    tabs.update(a, Tab { details_visible: !tabs[a].details_visible, ..tabs[a] })
}

/// The active-tab index after a request to select `index` among `len`
/// tabs: out-of-range requests are ignored.
pub open spec fn selected_tab(a: usize, index: usize, len: nat) -> usize {
    if index < len {
        index
    } else {
        a
    }
}

/// An ordered, non-empty set of tabs with one of them active.
pub struct TabbedWorkspace {
    pub tabs: Vec<Tab>,
    pub active_tab: usize,
}

impl TabbedWorkspace {
    /// There is at least one tab, the active index points at one of
    /// them, and every tab is well formed.
    pub open spec fn wf(&self) -> bool {
        &&& self.tabs@.len() > 0
        &&& self.active_tab < self.tabs@.len()
        &&& forall|j: int| 0 <= j < self.tabs@.len() ==> (#[trigger] self.tabs@[j]).wf()
    }

    /// The tab that is currently active.
    pub open spec fn active(&self) -> Tab {
        self.tabs@[self.active_tab as int]
    }

    /// Builds a workspace over the given tabs with the first one
    /// active.
    pub fn new(tabs: Vec<Tab>) -> (w: TabbedWorkspace)
        requires
            tabs@.len() > 0,
            forall|j: int| 0 <= j < tabs@.len() ==> (#[trigger] tabs@[j]).wf(),
        ensures
            w.tabs == tabs,
            w.active_tab == 0,
            w.wf(),
    {
        TabbedWorkspace { tabs, active_tab: 0 }
    }

    /// Makes the tab at `index` active; a request out of range is
    /// ignored. No tab's own state is touched either way.
    pub fn select_tab(&mut self, index: usize)
        requires
            old(self).wf(),
        ensures
            final(self).wf(),
            final(self).tabs == old(self).tabs,
            final(self).active_tab == selected_tab(
                old(self).active_tab,
                index,
                old(self).tabs@.len(),
            ),
    {
        if index < self.tabs.len() {
            self.active_tab = index;
        }
    }

    /// Moves the active tab's cursor one circular step in `dir`; every
    /// other tab, and the active index, are untouched.
    pub fn navigate(&mut self, dir: Direction)
        requires
            old(self).wf(),
        ensures
            final(self).wf(),
            final(self).active_tab == old(self).active_tab,
            final(self).tabs@ == navigated_tabs(
                old(self).tabs@,
                old(self).active_tab as int,
                dir,
            ),
    {
        let idx: usize = self.active_tab;
        let tab = &mut self.tabs[idx];
        match dir {
            Direction::Next => tab.tasks.next(),
            Direction::Previous => tab.tasks.previous(),
        }
    }

    /// Flips the details-visibility flag of the active tab only; every
    /// other tab, and the active index, are untouched.
    pub fn toggle_details(&mut self)
        requires
            old(self).wf(),
        ensures
            final(self).wf(),
            final(self).active_tab == old(self).active_tab,
            final(self).tabs@ == toggled_tabs(old(self).tabs@, old(self).active_tab as int),
    {
        let idx: usize = self.active_tab;
        let tab = &mut self.tabs[idx];
        tab.details_visible = !tab.details_visible;
    }
}

/// Builds one tab over the given label and task texts, with no cursor
/// and details hidden.
pub fn make_tab(label: &str, tasks: Vec<String>) -> (t: Tab)
    ensures
        t.label@ == label@,
        t.tasks.items == tasks,
        t.tasks.selected is None,
        t.details_visible == false,
        t.wf(),
{
    Tab { label: label.to_owned(), tasks: SelectableList::new(tasks), details_visible: false }
}

/// The workspace the viewer starts from: three categories, two tasks
/// each, the first tab active, no cursor anywhere and all details
/// hidden.
pub fn starter_workspace() -> (w: TabbedWorkspace)
    ensures
        w.wf(),
        w.active_tab == 0,
        w.tabs@.len() == 3,
        w.tabs@[0].label@ == "Work"@,
        w.tabs@[1].label@ == "Personal"@,
        w.tabs@[2].label@ == "Hobbies"@,
        w.tabs@[0].tasks.items@.len() == 2,
        w.tabs@[0].tasks.items@[0]@ == "Finish project report"@,
        w.tabs@[0].tasks.items@[1]@ == "Email manager"@,
        w.tabs@[1].tasks.items@.len() == 2,
        w.tabs@[1].tasks.items@[0]@ == "Buy groceries"@,
        w.tabs@[1].tasks.items@[1]@ == "Call family"@,
        w.tabs@[2].tasks.items@.len() == 2,
        w.tabs@[2].tasks.items@[0]@ == "Practice guitar"@,
        w.tabs@[2].tasks.items@[1]@ == "Read a book"@,
        forall|j: int| 0 <= j < 3 ==> (#[trigger] w.tabs@[j]).tasks.selected is None,
        forall|j: int| 0 <= j < 3 ==> (#[trigger] w.tabs@[j]).details_visible == false,
{
    let mut work_tasks: Vec<String> = Vec::new();
    work_tasks.push("Finish project report".to_owned());
    work_tasks.push("Email manager".to_owned());

    let mut personal_tasks: Vec<String> = Vec::new();
    personal_tasks.push("Buy groceries".to_owned());
    personal_tasks.push("Call family".to_owned());

    let mut hobby_tasks: Vec<String> = Vec::new();
    hobby_tasks.push("Practice guitar".to_owned());
    hobby_tasks.push("Read a book".to_owned());

    let mut tabs: Vec<Tab> = Vec::new();
    tabs.push(make_tab("Work", work_tasks));
    tabs.push(make_tab("Personal", personal_tasks));
    tabs.push(make_tab("Hobbies", hobby_tasks));

    TabbedWorkspace::new(tabs)
}

/// Law: flipping the details flag of the same tab twice returns the tab
/// sequence to exactly its original value (toggling is an involution).
pub proof fn lemma_toggle_details_involution(tabs: Seq<Tab>, a: int)
    requires
        0 <= a < tabs.len(),
    ensures
        toggled_tabs(toggled_tabs(tabs, a), a) == tabs,
{
    assert(toggled_tabs(toggled_tabs(tabs, a), a) =~= tabs);
}

} // verus!
