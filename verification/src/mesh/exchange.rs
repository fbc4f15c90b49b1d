//! Reading meshes from interchange formats.

pub mod obj;
pub mod source;
pub mod text;

pub use obj::ObjImporter;
