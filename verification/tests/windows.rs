use map_editor::asset::registry::AssetRegistry;
use map_editor::editor::scene_manager::SceneManager;
use map_editor::editor::window::assets::asset_labels;
use map_editor::editor::window::properties::property_lines;
use map_editor::editor::window::scene_graph::{scene_graph_items, select_clicked};
use map_editor::editor::window::tools::tool_labels;

#[test]
fn asset_labels_list_assets() {
    let mut r = AssetRegistry::new();
    assert_eq!(asset_labels(&r), vec!["No assets loaded."]);
    r.add_asset("/m/tree.glb".to_string(), None);
    r.add_asset("/t/wall.png".to_string(), Some("Wall".to_string()));
    assert_eq!(asset_labels(&r), vec!["tree - /m/tree.glb", "Wall - /t/wall.png"]);
}

#[test]
fn tool_labels_show_asset_paths() {
    let mut r = AssetRegistry::new();
    r.add_asset("/m/tree.glb".to_string(), None);
    let mut m = SceneManager::new(r);
    // The default cube's asset id is not one the registry gives out.
    assert_eq!(tool_labels(&m), vec!["Default Cube -> N/A"]);
    m.reset();
    assert_eq!(tool_labels(&m), vec!["Default Cube -> N/A"]);
}

#[test]
fn scene_graph_items_and_selection() {
    let mut m = SceneManager::new(AssetRegistry::new());
    let items = scene_graph_items(&m);
    assert_eq!(items, vec![(0usize, "Default Cube (default_cube)".to_string())]);
    select_clicked(&mut m, &vec![(0, false)]);
    assert_eq!(m.selected_entity_id(), None);
    select_clicked(&mut m, &vec![(0, true)]);
    assert_eq!(m.selected_entity_id(), Some(0));
    select_clicked(&mut m, &vec![(0, false)]);
    assert_eq!(m.selected_entity_id(), Some(0));
    select_clicked(&mut m, &vec![(5, true)]);
    assert_eq!(m.selected_entity_id(), Some(5));
    select_clicked(&mut m, &vec![]);
    assert_eq!(m.selected_entity_id(), Some(5));
}

#[test]
fn last_click_of_a_frame_wins() {
    let mut m = SceneManager::new(AssetRegistry::new());
    select_clicked(&mut m, &vec![(3, true), (4, false), (7, true), (8, false)]);
    assert_eq!(m.selected_entity_id(), Some(7));
    select_clicked(&mut m, &vec![(1, true), (2, false)]);
    assert_eq!(m.selected_entity_id(), Some(1));
    select_clicked(&mut m, &vec![(1, false), (2, false)]);
    assert_eq!(m.selected_entity_id(), Some(1));
}

#[test]
fn property_lines_follow_the_selection() {
    let mut m = SceneManager::new(AssetRegistry::new());
    assert_eq!(property_lines(&m), vec!["No entity selected"]);
    m.select_entity(0);
    assert_eq!(property_lines(&m), vec!["Name: Default Cube", "Asset: default_cube"]);
    m.select_entity(9);
    assert_eq!(property_lines(&m), vec!["Selected entity not found"]);
}
