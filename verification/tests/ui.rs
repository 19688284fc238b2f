use map_editor::editor::{Command as EditorCommand, CommandQueue};
use map_editor::ui::functions::{
    new_project, open_3d_view, toggle_assets, toggle_properties, toggle_scene_graph, tools_menu,
};
use map_editor::ui::Command as UiCommand;

#[test]
fn editor_menu_functions_send_their_commands() {
    let mut q = CommandQueue::new();
    open_3d_view(&mut q);
    toggle_assets(&mut q);
    toggle_properties(&mut q);
    toggle_scene_graph(&mut q);
    assert_eq!(q.try_recv(), Some(EditorCommand::AddViewport));
    assert_eq!(q.try_recv(), Some(EditorCommand::ToggleAssets));
    assert_eq!(q.try_recv(), Some(EditorCommand::ToggleProperties));
    assert_eq!(q.try_recv(), Some(EditorCommand::ToggleSceneGraph));
    assert_eq!(q.try_recv(), None);
}

#[test]
fn window_menu_functions_send_their_commands() {
    let mut q = CommandQueue::new();
    new_project(&mut q);
    tools_menu(&mut q);
    assert_eq!(q.try_recv(), Some(UiCommand::NewProject));
    assert_eq!(q.try_recv(), Some(UiCommand::ToggleTools));
    assert_eq!(q.try_recv(), None);
}
