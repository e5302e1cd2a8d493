//! The view model: a pure derivation, from the workspace's current
//! state, of exactly what a rendering host needs for one frame. It is
//! recomputed fresh each time and never caches anything.

use vstd::prelude::*;

verus! {

use crate::workspace::TabbedWorkspace;

/// The minimal snapshot of state needed to draw one frame: every tab's
/// label, which tab is active, and the active tab's items, cursor and
/// details flag.
pub struct RenderDescription {
    pub tab_labels: Vec<String>,
    pub active_tab_index: usize,
    pub visible_tasks: Vec<String>,
    pub selected_task_index: Option<usize>,
    pub details_visible: bool,
}

/// Derives the render description for the workspace's current state:
/// all labels in tab order, the active index, and the active tab's
/// tasks, cursor and details flag. Pure and total over well-formed
/// workspaces.
pub fn render(w: &TabbedWorkspace) -> (r: RenderDescription)
    requires
        w.wf(),
    ensures
        r.tab_labels@.len() == w.tabs@.len(),
        forall|j: int| 0 <= j < w.tabs@.len() ==> r.tab_labels@[j] == (#[trigger] w.tabs@[j]).label,
        r.active_tab_index == w.active_tab,
        r.visible_tasks@ == w.active().tasks.items@,
        r.selected_task_index == w.active().tasks.selected,
        r.details_visible == w.active().details_visible,
{
    let mut tab_labels: Vec<String> = Vec::new();
    let mut j: usize = 0;
    while j < w.tabs.len()
        invariant
            w.wf(),
            j <= w.tabs@.len(),
            tab_labels@.len() == j as nat,
            forall|k: int| 0 <= k < j ==> tab_labels@[k] == (#[trigger] w.tabs@[k]).label,
        decreases w.tabs@.len() - j,
    {
        tab_labels.push(w.tabs[j].label.clone());
        j += 1;
    }

    let active = &w.tabs[w.active_tab];
    let mut visible_tasks: Vec<String> = Vec::new();
    let mut k: usize = 0;
    while k < active.tasks.items.len()
        invariant
            k <= active.tasks.items@.len(),
            visible_tasks@ == active.tasks.items@.subrange(0, k as int),
        decreases active.tasks.items@.len() - k,
    {
        visible_tasks.push(active.tasks.items[k].clone());
        k += 1;
    }
    proof {
        assert(visible_tasks@ =~= active.tasks.items@);
    }

    RenderDescription {
        tab_labels,
        active_tab_index: w.active_tab,
        visible_tasks,
        selected_task_index: active.tasks.selected_index(),
        details_visible: active.details_visible,
    }
}

} // verus!
