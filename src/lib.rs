//! Raise a window of a given class, cycle through the windows of that class,
//! bring one to the current or an empty workspace, or launch a new instance.
//!
//! `window` models the compositor's snapshot, `decide` picks exactly one
//! action from it, `command` turns that action into the compositor commands
//! that carry it out, and `laws` states what holds of every decision.
use vstd::prelude::*;

pub mod placement;
pub mod window;
pub mod decide;
pub mod laws;
pub mod command;

verus! {

} // verus!
