use egui_dock::DockState;
use vstd::prelude::*;

use crate::asset::registry::{AssetRegistry, AssetView};
use crate::editor::dock_manager::Tab;
use crate::editor::window::{toggle_panel, PanelWindow};
use crate::text::joined;

verus! {

/// The window shown by the `Tab::Assets` tab.
pub struct AssetsWindow {
    pub open: bool,
}

impl AssetsWindow {
    /// A window that starts closed.
    pub fn new() -> (r: Self)
        ensures
            !r.open,
    {
        AssetsWindow { open: false }
    }
}

impl PanelWindow for AssetsWindow {
    open spec fn panel_tab(&self) -> Tab {
        Tab::Assets
    }

    open spec fn open_flag(&self) -> bool {
        self.open
    }

    fn is_open(&self) -> (r: bool) {
        self.open
    }

    fn toggle(&mut self, dock_state: &mut DockState<Tab>) {
        toggle_panel(&mut self.open, dock_state, Tab::Assets);
    }

    fn on_close(&mut self) {
        self.open = false;
    }
}

/// The line shown for an asset: `<name> - <path>`.
pub open spec fn asset_label(a: AssetView) -> Seq<char> {
    a.name + " - "@ + a.path
}

/// The lines of the assets panel: one per asset, in the order they were
/// added, or `No assets loaded.` when there is none.
pub fn asset_labels(registry: &AssetRegistry) -> (r: Vec<String>)
    ensures
        registry.records().len() == 0 ==> r@.len() == 1 && r@[0]@ == "No assets loaded."@,
        registry.records().len() > 0 ==> r@.len() == registry.records().len() && forall|i: int|
            0 <= i < r@.len() ==> #[trigger] r@[i]@ == asset_label(registry.records()[i]),
{
    let assets = registry.all_assets();
    let mut r: Vec<String> = Vec::new();
    if assets.len() == 0 {
        r.push(String::from_str("No assets loaded."));
        return r;
    }
    let mut i: usize = 0;
    while i < assets.len()
        invariant
            i <= assets@.len(),
            assets@.len() == registry.records().len(),
            forall|j: int| 0 <= j < assets@.len() ==> #[trigger] assets@[j]@ == registry.records()[j],
            r@.len() == i,
            forall|j: int| 0 <= j < i ==> #[trigger] r@[j]@ == asset_label(registry.records()[j]),
        decreases assets@.len() - i,
    {
        let a = assets[i];
        assert(a@ == registry.records()[i as int]);
        let mut line = joined(a.name.as_str(), " - ");
        line.append(a.path.as_str());
        r.push(line);
        i = i + 1;
    }
    r
}

} // verus!
