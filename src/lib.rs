//! Event handling of a scene editor's menu bar and graphics-settings dialog.
//!
//! Widgets are named by plain handles; each handler maps a UI event to the
//! action that the editor has to carry out, and states that mapping exactly.
use vstd::prelude::*;

pub mod menu;
pub mod settings;
pub mod widget;

verus! {

} // verus!
