use egui_dock::{NodeIndex, SurfaceIndex, TabIndex, TabPath};
use map_editor::asset::registry::AssetRegistry;
use map_editor::editor::dock_manager::Tab;
use map_editor::editor::tab_viewer::tab_title;
use map_editor::editor::{Command, CommandQueue, EditorState, ViewportAction};

fn tab_count(s: &mut EditorState, t: Tab) -> usize {
    s.dock_manager_mut().dock_state_mut().iter_all_tabs().filter(|(_, x)| **x == t).count()
}

#[test]
fn queue_is_first_in_first_out() {
    let mut q = CommandQueue::new();
    assert_eq!(q.try_recv(), None);
    q.send(Command::AddViewport);
    q.send(Command::ToggleTools);
    q.send(Command::NewProject);
    assert_eq!(q.len(), 3);
    assert_eq!(q.try_recv(), Some(Command::AddViewport));
    assert_eq!(q.try_recv(), Some(Command::ToggleTools));
    assert_eq!(q.try_recv(), Some(Command::NewProject));
    assert_eq!(q.try_recv(), None);
}

#[test]
fn add_viewport_creates_fresh_ids() {
    let mut s = EditorState::new(AssetRegistry::new());
    assert_eq!(s.handle_command(Command::AddViewport), Some(ViewportAction::Create(0)));
    assert_eq!(s.handle_command(Command::AddViewport), Some(ViewportAction::Create(1)));
    assert_eq!(s.next_viewport_id(), 2);
    assert_eq!(tab_count(&mut s, Tab::Viewport3D(0)), 1);
    assert_eq!(tab_count(&mut s, Tab::Viewport3D(1)), 1);
}

#[test]
fn new_project_replaces_everything() {
    let mut s = EditorState::new(AssetRegistry::new());
    s.handle_command(Command::AddViewport);
    s.handle_command(Command::AddViewport);
    s.handle_command(Command::ToggleTools);
    s.scene_manager_mut().select_entity(0);
    assert_eq!(s.handle_command(Command::NewProject), Some(ViewportAction::ReplaceAll(0)));
    assert_eq!(s.next_viewport_id(), 1);
    assert_eq!(tab_count(&mut s, Tab::Viewport3D(0)), 1);
    assert_eq!(tab_count(&mut s, Tab::Viewport3D(1)), 0);
    assert_eq!(tab_count(&mut s, Tab::Tools), 0);
    assert_eq!(tab_count(&mut s, Tab::Properties), 1);
    assert!(!s.dock_manager().tools.open);
    assert_eq!(s.scene_manager().selected_entity_id(), None);
    assert_eq!(s.scene_manager().scene_graph().get(1).unwrap().name, "Default Cube");
}

#[test]
fn toggle_and_close_commands_reach_the_panels() {
    let mut s = EditorState::new(AssetRegistry::new());
    assert_eq!(s.handle_command(Command::ToggleSceneGraph), None);
    assert!(s.dock_manager().scene_graph.open);
    assert_eq!(tab_count(&mut s, Tab::SceneGraph), 1);
    s.handle_command(Command::ToggleAssets);
    s.handle_command(Command::ToggleProperties);
    assert!(s.dock_manager().assets.open);
    assert!(!s.dock_manager().properties.open);
    assert_eq!(tab_count(&mut s, Tab::Properties), 0);
    s.handle_command(Command::CloseAssets);
    s.handle_command(Command::CloseSceneGraph);
    s.handle_command(Command::CloseTools);
    s.handle_command(Command::CloseProperties);
    assert!(!s.dock_manager().assets.open && !s.dock_manager().scene_graph.open);
}

#[test]
fn commands_are_taken_in_order() {
    let mut s = EditorState::new(AssetRegistry::new());
    s.commands_mut().send(Command::AddViewport);
    s.commands_mut().send(Command::ToggleTools);
    assert_eq!(s.next_command(), Some(Command::AddViewport));
    assert_eq!(s.next_command(), Some(Command::ToggleTools));
    assert_eq!(s.next_command(), None);
}

#[test]
fn closing_tabs_queues_work() {
    let mut s = EditorState::new(AssetRegistry::new());
    s.handle_command(Command::AddViewport);
    s.handle_command(Command::AddViewport);
    s.handle_command(Command::AddViewport);
    s.close_tab(Tab::Viewport3D(1));
    s.close_tab(Tab::Tools);
    s.close_tab(Tab::Assets);
    s.close_tab(Tab::SceneGraph);
    s.close_tab(Tab::Properties);
    assert_eq!(s.next_command(), Some(Command::CloseTools));
    assert_eq!(s.next_command(), Some(Command::CloseAssets));
    assert_eq!(s.next_command(), Some(Command::CloseSceneGraph));
    assert_eq!(s.next_command(), Some(Command::CloseProperties));
    assert_eq!(s.take_closed_viewports(), vec![1]);
    assert_eq!(s.take_closed_viewports(), Vec::<usize>::new());
    // A fresh viewport never reuses an id.
    assert_eq!(s.handle_command(Command::AddViewport), Some(ViewportAction::Create(3)));
}

#[test]
fn can_handle_when_ids_remain() {
    let s = EditorState::new(AssetRegistry::new());
    assert!(s.can_handle(&Command::AddViewport));
    assert!(s.can_handle(&Command::NewProject));
    assert!(s.can_handle(&Command::ToggleTools));
}

#[test]
fn tab_titles() {
    assert_eq!(tab_title(&Tab::Viewport3D(0)), "3D Viewport 0");
    assert_eq!(tab_title(&Tab::Viewport3D(42)), "3D Viewport 42");
    assert_eq!(tab_title(&Tab::SceneGraph), "Scene Graph");
    assert_eq!(tab_title(&Tab::Properties), "Properties");
    assert_eq!(tab_title(&Tab::Tools), "Tools");
    assert_eq!(tab_title(&Tab::Assets), "Assets");
}

#[test]
fn new_project_layout_is_one_leaf_of_properties_then_viewport() {
    let mut s = EditorState::new(AssetRegistry::new());
    s.handle_command(Command::AddViewport);
    s.handle_command(Command::ToggleTools);
    s.handle_command(Command::NewProject);
    let dock = s.dock_manager_mut().dock_state_mut();
    let all: Vec<(TabPath, Tab)> = dock.iter_all_tabs().map(|(p, t)| (p, *t)).collect();
    let at = |k: usize| TabPath::new(SurfaceIndex::main(), NodeIndex::root(), TabIndex(k));
    assert_eq!(all, vec![(at(0), Tab::Properties), (at(1), Tab::Viewport3D(0))]);
    assert_eq!(dock.find_tab(&Tab::Properties), Some(at(0)));
}
