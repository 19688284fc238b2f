//! The menus: the commands they send and the 3D viewport's input decisions.

pub mod functions;
pub mod menus;

use vstd::prelude::*;

verus! {

/// A request of the stand-alone editor window's menus.
#[derive(Debug, Clone, Copy, PartialEq, Eq, Structural)]
pub enum Command {
    AddViewport,
    NewProject,
    ToggleTools,
}

} // verus!
