//! Object-storage locations of a fuse table's metadata and data files.
pub mod constants;
pub mod ids;
pub mod locations;
pub mod text;
pub mod versions;
pub mod laws;
pub mod variant;
