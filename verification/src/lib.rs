//! Three-dimensional vector algebra, bounding boxes and triangles over an
//! abstract scalar, and a polygon-soup mesh that can be read from OBJ text.

pub mod geometry;
pub mod mesh;
pub mod scalar;
