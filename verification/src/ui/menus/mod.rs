pub mod viewport;
