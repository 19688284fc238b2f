//! Core logic of a small 3D map editor: the asset registry, the scene graph,
//! the dock layout model, the editor's command handling and the viewport's
//! input decisions, each with its contract.

pub mod text;
pub mod asset;
pub mod scene;
pub mod editor;
pub mod ui;
