use egui_dock::DockState;
use vstd::prelude::*;

use crate::editor::dock_manager::Tab;
use crate::editor::scene_manager::SceneManager;
use crate::editor::window::{toggle_panel, PanelWindow};
use crate::scene::find_entity;
use crate::text::joined;

verus! {

/// The window shown by the `Tab::Properties` tab.
pub struct PropertiesWindow {
    pub open: bool,
}

impl PropertiesWindow {
    /// A window that starts open.
    pub fn new() -> (r: Self)
        ensures
            r.open,
    {
        PropertiesWindow { open: true }
    }
}

impl PanelWindow for PropertiesWindow {
    open spec fn panel_tab(&self) -> Tab {
        Tab::Properties
    }

    open spec fn open_flag(&self) -> bool {
        self.open
    }

    fn is_open(&self) -> (r: bool) {
        self.open
    }

    fn toggle(&mut self, dock_state: &mut DockState<Tab>) {
        toggle_panel(&mut self.open, dock_state, Tab::Properties);
    }

    fn on_close(&mut self) {
        self.open = false;
    }
}

/// The text lines of the properties panel: `No entity selected`,
/// `Selected entity not found`, or the selected entity's `Name: <name>`
/// and `Asset: <asset id>` (its position follows, written by the caller).
pub open spec fn property_lines_spec(scene_manager: SceneManager) -> Seq<Seq<char>> {
    match scene_manager.selection() {
        None => seq!["No entity selected"@],
        Some(id) => match find_entity(scene_manager.graph().entity_views(), id) {
            None => seq!["Selected entity not found"@],
            Some(e) => seq!["Name: "@ + e.name, "Asset: "@ + e.asset_id],
        },
    }
}

/// The text lines of the properties panel.
pub fn property_lines(scene_manager: &SceneManager) -> (r: Vec<String>)
    ensures
        r@.map_values(|s: String| s@) == property_lines_spec(*scene_manager),
{
    let mut r: Vec<String> = Vec::new();
    match scene_manager.selected_entity_id() {
        None => r.push(String::from_str("No entity selected")),
        Some(id) => match scene_manager.scene_graph().get(id) {
            None => r.push(String::from_str("Selected entity not found")),
            Some(e) => {
                r.push(joined("Name: ", e.name.as_str()));
                r.push(joined("Asset: ", e.asset_id.as_str()));
            },
        },
    }
    assert(r@.map_values(|s: String| s@) =~= property_lines_spec(*scene_manager));
    r
}

} // verus!
