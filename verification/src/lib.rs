//! Core model of a tabbed task viewer: a selectable list with circular
//! navigation, a workspace of tabs each owning its own list and details
//! flag, an interpreter from input events to commands, and a pure view
//! model that derives what a rendering host needs for one frame.

pub mod input;
pub mod selectable_list;
pub mod view;
pub mod workspace;
