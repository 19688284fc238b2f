//! Menu actions that send a command to the editor.

pub mod new_project;
pub mod open_3d_view;
pub mod toggle_assets;
pub mod toggle_properties;
pub mod toggle_scene_graph;
pub mod tools_menu;

pub use new_project::new_project;
pub use open_3d_view::open_3d_view;
pub use toggle_assets::toggle_assets;
pub use toggle_properties::toggle_properties;
pub use toggle_scene_graph::toggle_scene_graph;
pub use tools_menu::tools_menu;
