//! The panel windows that the dock can show, and what toggling one does.

pub mod assets;
pub mod properties;
pub mod scene_graph;
pub mod tools;

pub use assets::AssetsWindow;
pub use properties::PropertiesWindow;
pub use scene_graph::SceneGraphWindow;
pub use tools::ToolsWindow;

use egui_dock::DockState;
use vstd::multiset::Multiset;
use vstd::prelude::*;

use crate::editor::dock_manager::{
    dock_tabs, first_position_of, dock_wf, dock_without, find_tab, push_tab, pushed_to_target, remove_tab_at,
    Tab,
};

verus! {

/// Toggling a panel whose tab is `tab`: a closed panel opens and its tab is
/// added; an open panel closes and one copy of its tab, if any, is removed.
pub open spec fn panel_toggle(open: bool, tabs: Multiset<Tab>, tab: Tab) -> (bool, Multiset<Tab>) {
    if !open {
        (true, tabs.insert(tab))
    } else if tabs.contains(tab) {
        (false, tabs.remove(tab))
    } else {
        (false, tabs)
    }
}

/// Where toggling puts or takes the tab: opening appends it to the leaf that
/// `push_to_focused_leaf` fills; closing removes the first copy in index
/// order, if any, and otherwise leaves the layout as it was.
pub open spec fn panel_toggle_layout(open: bool, before: DockState<Tab>, after: DockState<Tab>, tab: Tab) -> bool {
    if !open {
        pushed_to_target(before, after, tab)
    } else if dock_tabs(before).contains(tab) {
        exists|p: (usize, usize, usize)|
            first_position_of(before, tab, p) && after == dock_without(before, p)
    } else {
        after == before
    }
}

/// A window that is shown as a tab of the dock.
pub trait PanelWindow {
    /// The tab that shows this window.
    spec fn panel_tab(&self) -> Tab;

    /// Whether the window is open.
    spec fn open_flag(&self) -> bool;

    /// Whether the window is open.
    fn is_open(&self) -> (r: bool)
        ensures
            r == self.open_flag(),
    ;

    /// Opens the window and adds its tab, or closes it and removes its tab.
    fn toggle(&mut self, dock_state: &mut DockState<Tab>)
        requires
            dock_wf(*old(dock_state)),
        ensures
            final(self).panel_tab() == old(self).panel_tab(),
            dock_wf(*final(dock_state)),
            panel_toggle_layout(
                old(self).open_flag(),
                *old(dock_state),
                *final(dock_state),
                old(self).panel_tab(),
            ),
            (final(self).open_flag(), dock_tabs(*final(dock_state))) == panel_toggle(
                old(self).open_flag(),
                dock_tabs(*old(dock_state)),
                old(self).panel_tab(),
            ),
    ;

    /// Marks the window closed, after its tab was closed.
    fn on_close(&mut self)
        ensures
            final(self).panel_tab() == old(self).panel_tab(),
            !final(self).open_flag(),
    ;
}

/// Flips `open` and adds or removes `tab` accordingly.
pub(crate) fn toggle_panel(open: &mut bool, dock_state: &mut DockState<Tab>, tab: Tab)
    requires
        dock_wf(*old(dock_state)),
    ensures
        dock_wf(*final(dock_state)),
        panel_toggle_layout(*old(open), *old(dock_state), *final(dock_state), tab),
        (*final(open), dock_tabs(*final(dock_state))) == panel_toggle(
            *old(open),
            dock_tabs(*old(dock_state)),
            tab,
        ),
{
    *open = !*open;
    if *open {
        push_tab(dock_state, tab);
    } else {
        match find_tab(dock_state, &tab) {
            Some(path) => {
                let _ = remove_tab_at(dock_state, path);
            },
            None => {},
        }
    }
}

/// Toggling a panel twice gives back the same open flag and the same tabs,
/// when an open panel's tab is in the layout.
pub proof fn lemma_toggle_twice(open: bool, tabs: Multiset<Tab>, tab: Tab)
    requires
        open ==> tabs.contains(tab),
    ensures
        panel_toggle(panel_toggle(open, tabs, tab).0, panel_toggle(open, tabs, tab).1, tab) == (
            open,
            tabs,
        ),
{
    broadcast use vstd::multiset::group_multiset_axioms;

    if open {
        assert(tabs.remove(tab).insert(tab) =~= tabs);
    } else {
        assert(tabs.insert(tab).contains(tab));
        assert(tabs.insert(tab).remove(tab) =~= tabs);
    }
}

} // verus!
