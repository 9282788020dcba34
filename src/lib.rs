//! Validation of the fields of a new elm.json manifest, and the rendering of
//! the manifest itself.
pub mod text;
pub mod validate;
pub mod manifest;
pub mod laws;
