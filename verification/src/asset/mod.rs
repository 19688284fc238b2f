pub mod model_loader;
pub mod path;
pub mod registry;
