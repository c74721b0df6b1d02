//! The logic of a desktop markdown viewer: resolving the path given at
//! launch, deciding when that path is handed to the display surface, and
//! rendering markdown to HTML with a fixed set of extensions.

pub mod path;
pub mod relay;
pub mod render;
