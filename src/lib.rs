//! Generation of the renderer package of a content-editing plugin: the typed
//! state declaration of its attributes, the imports those types need, and the
//! rendered index file.

pub mod declarations;
pub mod error;
pub mod imports;
pub mod laws;
pub mod model;
pub mod naming;
pub mod registry;
pub mod render;
pub mod renderer;
