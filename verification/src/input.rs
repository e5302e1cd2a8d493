//! Interpretation of discrete input events. The interpreter is a total,
//! stateless function from an event to a command; commands are then
//! applied to the workspace. The host decodes physical key presses into
//! events and performs no logic of its own.

use vstd::prelude::*;

verus! {

use crate::workspace::{
    Direction, Tab, TabbedWorkspace, navigated_tabs, selected_tab, toggled_tabs,
};

/// A discrete input event, already classified by the host from a
/// physical key press.
#[derive(Clone, Copy, PartialEq, Eq, Structural, Debug)]
pub enum InputEvent {
    RequestTerminate,
    SelectTab(usize),
    MoveDown,
    MoveUp,
    Confirm,
    Other,
}

/// A mutation of the workspace, or the signal to stop the loop.
#[derive(Clone, Copy, PartialEq, Eq, Structural, Debug)]
pub enum Command {
    Terminate,
    SelectTab(usize),
    Navigate(Direction),
    ToggleDetails,
    NoOp,
}

/// The command that an event maps to, among `tab_count` tabs: tab
/// selections out of range, and unclassified events, map to no
/// operation.
pub open spec fn interpreted(ev: InputEvent, tab_count: nat) -> Command {
    match ev {
        InputEvent::RequestTerminate => Command::Terminate,
        InputEvent::SelectTab(n) => if (n as nat) < tab_count {
            Command::SelectTab(n)
        } else {
            Command::NoOp
        },
        InputEvent::MoveDown => Command::Navigate(Direction::Next),
        InputEvent::MoveUp => Command::Navigate(Direction::Previous),
        InputEvent::Confirm => Command::ToggleDetails,
        InputEvent::Other => Command::NoOp,
    }
}

/// Maps one event to its command; total over all events, stateless, and
/// free of side effects.
pub fn interpret(ev: InputEvent, tab_count: usize) -> (c: Command)
    ensures
        c == interpreted(ev, tab_count as nat),
{
    match ev {
        InputEvent::RequestTerminate => Command::Terminate,
        InputEvent::SelectTab(n) => if n < tab_count {
            Command::SelectTab(n)
        } else {
            Command::NoOp
        },
        InputEvent::MoveDown => Command::Navigate(Direction::Next),
        InputEvent::MoveUp => Command::Navigate(Direction::Previous),
        InputEvent::Confirm => Command::ToggleDetails,
        InputEvent::Other => Command::NoOp,
    }
}

impl TabbedWorkspace {
    /// Applies one command: selects a tab, navigates the active tab,
    /// toggles its details, or does nothing; the result says whether
    /// the command asked the loop to terminate.
    pub fn apply(&mut self, cmd: Command) -> (halt: bool)
        requires
            old(self).wf(),
        ensures
            final(self).wf(),
            halt == (cmd is Terminate),
            final(self).tabs@ == applied_tabs(old(self).tabs@, old(self).active_tab, cmd),
            final(self).active_tab == selected_after(
                old(self).active_tab,
                cmd,
                old(self).tabs@.len(),
            ),
    {
        match cmd {
            Command::Terminate => true,
            Command::SelectTab(n) => {
                self.select_tab(n);
                false
            },
            Command::Navigate(dir) => {
                self.navigate(dir);
                false
            },
            Command::ToggleDetails => {
                self.toggle_details();
                false
            },
            Command::NoOp => false,
        }
    }
}

/// The tab sequence after one command, with the tab at `a` active:
/// only navigation and toggling touch it, and only at `a`.
pub open spec fn applied_tabs(tabs: Seq<Tab>, a: usize, cmd: Command) -> Seq<Tab> {
    match cmd {
        Command::Navigate(dir) => navigated_tabs(tabs, a as int, dir),
        Command::ToggleDetails => toggled_tabs(tabs, a as int),
        _ => tabs,
    }
}

/// The active-tab index after one command among `len` tabs: only a tab
/// selection in range moves it.
pub open spec fn selected_after(a: usize, cmd: Command, len: nat) -> usize {
    match cmd {
        Command::SelectTab(n) => selected_tab(a, n, len),
        _ => a,
    }
}

} // verus!
