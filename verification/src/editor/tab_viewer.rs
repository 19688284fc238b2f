//! What the dock shows on each tab's title.

use vstd::prelude::*;

use crate::editor::dock_manager::Tab;
use crate::text::{joined, decimal, decimal_string};

verus! {

/// The title of a tab: `3D Viewport <id>`, `Scene Graph`, `Properties`, `Tools` or `Assets`.
pub open spec fn tab_title_spec(tab: Tab) -> Seq<char> {
    match tab {
        Tab::Viewport3D(id) => "3D Viewport "@ + decimal(id as nat),
        Tab::SceneGraph => "Scene Graph"@,
        Tab::Properties => "Properties"@,
        Tab::Tools => "Tools"@,
        Tab::Assets => "Assets"@,
    }
}

/// The title shown on `tab`.
pub fn tab_title(tab: &Tab) -> (r: String)
    ensures
        r@ == tab_title_spec(*tab),
{
    match tab {
        Tab::Viewport3D(id) => joined("3D Viewport ", decimal_string(*id).as_str()),
        Tab::SceneGraph => String::from_str("Scene Graph"),
        Tab::Properties => String::from_str("Properties"),
        Tab::Tools => String::from_str("Tools"),
        Tab::Assets => String::from_str("Assets"),
    }
}

} // verus!
