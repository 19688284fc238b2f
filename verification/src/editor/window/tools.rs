use egui_dock::DockState;
use vstd::prelude::*;

use crate::asset::registry::lookup;
use crate::editor::dock_manager::Tab;
use crate::editor::scene_manager::SceneManager;
use crate::editor::window::{toggle_panel, PanelWindow};
use crate::scene::EntityView;
use crate::text::joined;

verus! {

/// The window shown by the `Tab::Tools` tab.
pub struct ToolsWindow {
    pub open: bool,
}

impl ToolsWindow {
    /// A window that starts closed.
    pub fn new() -> (r: Self)
        ensures
            !r.open,
    {
        ToolsWindow { open: false }
    }
}

impl PanelWindow for ToolsWindow {
    open spec fn panel_tab(&self) -> Tab {
        Tab::Tools
    }

    open spec fn open_flag(&self) -> bool {
        self.open
    }

    fn is_open(&self) -> (r: bool) {
        self.open
    }

    fn toggle(&mut self, dock_state: &mut DockState<Tab>) {
        toggle_panel(&mut self.open, dock_state, Tab::Tools);
    }

    fn on_close(&mut self) {
        self.open = false;
    }
}

/// The line shown for an entity: `<name> -> <path of its asset>`, or
/// `<name> -> N/A` when no asset has its asset id.
pub open spec fn tool_label(e: EntityView, path: Option<Seq<char>>) -> Seq<char> {
    e.name + " -> "@ + match path {
        Some(p) => p,
        None => "N/A"@,
    }
}

/// The line of an entity whose asset is registered ends in that asset's
/// path; the line of one whose asset is not ends in `N/A`.
pub proof fn lemma_tool_label_shows_asset_path(e: EntityView, path: Seq<char>)
    ensures
        tool_label(e, Some(path)) == e.name + " -> "@ + path,
        tool_label(e, None) == e.name + " -> "@ + "N/A"@,
{
}

/// The lines of the tools panel after its heading: one per entity of the
/// scene, in order, with the path of the entity's asset.
pub fn tool_labels(scene_manager: &SceneManager) -> (r: Vec<String>)
    ensures
        r@.len() == scene_manager.graph().entity_views().len(),
        forall|i: int|
            0 <= i < r@.len() ==> #[trigger] r@[i]@ == tool_label(
                scene_manager.graph().entity_views()[i],
                match lookup(
                    scene_manager.registry().records(),
                    scene_manager.graph().entity_views()[i].asset_id,
                ) {
                    Some(a) => Some(a.path),
                    None => None,
                },
            ),
        forall|i: int|
            0 <= i < r@.len() ==> (lookup(
                scene_manager.registry().records(),
                scene_manager.graph().entity_views()[i].asset_id,
            ) matches Some(a) ==> #[trigger] r@[i]@ == scene_manager.graph().entity_views()[i].name + " -> "@
                + a.path),
        forall|i: int|
            0 <= i < r@.len() ==> (lookup(
                scene_manager.registry().records(),
                scene_manager.graph().entity_views()[i].asset_id,
            ) is None ==> #[trigger] r@[i]@ == scene_manager.graph().entity_views()[i].name + " -> "@ + "N/A"@),
{
    let registry = scene_manager.asset_registry();
    let graph = scene_manager.scene_graph();
    let n = graph.entity_count();
    let mut r: Vec<String> = Vec::new();
    let mut i: usize = 0;
    while i < n
        invariant
            *registry == scene_manager.registry(),
            *graph == scene_manager.graph(),
            n == graph.entity_views().len(),
            i <= n,
            r@.len() == i,
            forall|j: int|
                0 <= j < i ==> #[trigger] r@[j]@ == tool_label(
                    graph.entity_views()[j],
                    match lookup(registry.records(), graph.entity_views()[j].asset_id) {
                        Some(a) => Some(a.path),
                        None => None,
                    },
                ),
        decreases n - i,
    {
        let e = graph.entity_at(i);
        let mut line = joined(e.name.as_str(), " -> ");
        match registry.path(e.asset_id.as_str()) {
            Some(p) => line.append(p.as_str()),
            None => line.append("N/A"),
        }
        r.push(line);
        i = i + 1;
    }
    assert forall|i: int| 0 <= i < r@.len() implies #[trigger] r@[i]@ == tool_label(
        graph.entity_views()[i],
        match lookup(registry.records(), graph.entity_views()[i].asset_id) {
            Some(a) => Some(a.path),
            None => None,
        },
    ) by {}
    r
}

} // verus!
