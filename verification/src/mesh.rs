//! Meshes: vertices, faces, named groups, and the soup that holds them.

pub mod exchange;
pub mod primitives;
pub mod soup;

pub use primitives::{Face, Patch, Vertex};
pub use soup::PolygonSoup;
