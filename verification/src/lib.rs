//! A verified loader for plain-text 3D mesh documents.
//!
//! The library parses a geometry document (vertices, normals, texture
//! coordinates, hierarchical faces) together with its companion material
//! catalogue into an in-memory mesh, and flattens the result into
//! renderer-ready buffers.  Every parsing and query step is specified and
//! proved; reading the files themselves is left to the caller, who feeds
//! the parser one line at a time.

pub mod error;
pub mod laws;
pub mod loader;
pub mod model;
pub mod mtl;
pub mod query;
pub mod scalar;
pub mod text;
