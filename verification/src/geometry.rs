//! Vectors, bounding boxes and triangles.

pub mod bbox;
pub mod exact;
pub mod triangle;
pub mod vector;

pub use bbox::BoundingBox;
pub use triangle::Triangle;
pub use vector::Vector3;
