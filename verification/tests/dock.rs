use egui_dock::DockState;
use map_editor::editor::dock_manager::{DockManager, Tab};
use map_editor::editor::window::{
    AssetsWindow, PanelWindow, PropertiesWindow, SceneGraphWindow, ToolsWindow,
};

fn count(d: &mut DockManager, t: Tab) -> usize {
    d.dock_state_mut().iter_all_tabs().filter(|(_, x)| **x == t).count()
}

#[test]
fn new_layout_shows_only_properties() {
    let mut d = DockManager::new();
    assert!(d.properties.open);
    assert!(!d.tools.open && !d.scene_graph.open && !d.assets.open);
    assert_eq!(count(&mut d, Tab::Properties), 1);
    assert_eq!(d.dock_state_mut().iter_all_tabs().count(), 1);
}

#[test]
fn toggle_tools_adds_then_removes_its_tab() {
    let mut d = DockManager::new();
    d.toggle_tools();
    assert!(d.tools.open);
    assert_eq!(count(&mut d, Tab::Tools), 1);
    d.toggle_tools();
    assert!(!d.tools.open);
    assert_eq!(count(&mut d, Tab::Tools), 0);
    assert_eq!(count(&mut d, Tab::Properties), 1);
}

#[test]
fn toggle_properties_closes_it_first() {
    let mut d = DockManager::new();
    d.toggle_properties();
    assert!(!d.properties.open);
    assert_eq!(count(&mut d, Tab::Properties), 0);
    d.toggle_properties();
    assert!(d.properties.open);
    assert_eq!(count(&mut d, Tab::Properties), 1);
}

#[test]
fn toggles_of_all_panels_keep_tabs_matching() {
    let mut d = DockManager::new();
    d.toggle_scene_graph();
    d.toggle_assets();
    d.add_viewport(3);
    d.toggle_tools();
    assert_eq!(count(&mut d, Tab::SceneGraph), 1);
    assert_eq!(count(&mut d, Tab::Assets), 1);
    assert_eq!(count(&mut d, Tab::Tools), 1);
    assert_eq!(count(&mut d, Tab::Viewport3D(3)), 1);
    d.toggle_scene_graph();
    d.toggle_assets();
    assert_eq!(count(&mut d, Tab::SceneGraph), 0);
    assert_eq!(count(&mut d, Tab::Assets), 0);
    assert_eq!(d.dock_state_mut().iter_all_tabs().count(), 3);
}

#[test]
fn toggling_an_open_panel_without_tab_only_closes_it() {
    let mut d = DockManager::new();
    d.toggle_tools();
    let path = d.dock_state_mut().find_tab(&Tab::Tools).unwrap();
    d.dock_state_mut().remove_tab(path);
    d.toggle_tools();
    assert!(!d.tools.open);
    assert_eq!(count(&mut d, Tab::Properties), 1);
    assert_eq!(d.dock_state_mut().iter_all_tabs().count(), 1);
}

#[test]
fn reset_restores_the_starting_layout() {
    let mut d = DockManager::new();
    d.toggle_tools();
    d.toggle_properties();
    d.add_viewport(0);
    d.reset();
    assert!(d.properties.open && !d.tools.open);
    assert_eq!(count(&mut d, Tab::Properties), 1);
    assert_eq!(d.dock_state_mut().iter_all_tabs().count(), 1);
}

#[test]
fn on_close_marks_panels_closed() {
    let mut d = DockManager::new();
    d.toggle_tools();
    d.toggle_scene_graph();
    d.toggle_assets();
    d.on_close_tools();
    d.on_close_scene_graph();
    d.on_close_properties();
    d.on_close_assets();
    assert!(!d.tools.open && !d.scene_graph.open && !d.properties.open && !d.assets.open);
    assert_eq!(d.dock_state_mut().iter_all_tabs().count(), 4);
}

#[test]
fn window_constructors() {
    assert!(!ToolsWindow::new().open);
    assert!(!SceneGraphWindow::new().open);
    assert!(PropertiesWindow::new().open);
    assert!(!AssetsWindow::new().open);
}

#[test]
fn panel_window_toggle_twice_restores() {
    let mut dock = DockState::new(vec![Tab::Properties]);
    let mut w = AssetsWindow::new();
    w.toggle(&mut dock);
    assert!(w.is_open());
    assert_eq!(dock.iter_all_tabs().count(), 2);
    w.toggle(&mut dock);
    assert!(!w.is_open());
    assert_eq!(dock.iter_all_tabs().count(), 1);
    w.toggle(&mut dock);
    w.on_close();
    assert!(!w.is_open());
}

#[test]
fn opened_panel_tab_goes_to_the_focused_leaf() {
    let mut d = DockManager::new();
    let props = d.dock_state_mut().find_tab(&Tab::Properties).unwrap();
    d.toggle_tools();
    let tools = d.dock_state_mut().find_tab(&Tab::Tools).unwrap();
    assert_eq!(tools.surface, props.surface);
    assert_eq!(tools.node, props.node);
    assert_eq!(tools.tab.0, props.tab.0 + 1);
    d.add_viewport(7);
    let v = d.dock_state_mut().find_tab(&Tab::Viewport3D(7)).unwrap();
    assert_eq!(v.node, props.node);
    assert_eq!(v.tab.0, 2);
}

#[test]
fn closing_a_panel_removes_the_first_copy_found() {
    let mut d = DockManager::new();
    d.toggle_tools();
    // A second copy of the tools tab, after a viewport tab.
    d.add_viewport(1);
    d.dock_state_mut().push_to_focused_leaf(Tab::Tools);
    d.toggle_tools();
    let tabs: Vec<Tab> = d.dock_state_mut().iter_all_tabs().map(|(_, t)| *t).collect();
    assert_eq!(tabs, vec![Tab::Properties, Tab::Viewport3D(1), Tab::Tools]);
}
