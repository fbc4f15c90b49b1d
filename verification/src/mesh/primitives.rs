//! The value types a mesh is made of.

use crate::scalar::Scalar;
use vstd::prelude::*;

verus! {

/// A point of a mesh, identified by its position in the mesh's vertex list.
#[derive(Debug, Clone, Copy)]
pub struct Vertex<T: Scalar> {
    pub x: T,
    pub y: T,
    pub z: T,
}

impl<T: Scalar> Vertex<T> {
    /// The coordinate at position `index`: `x`, `y`, `z` for 0, 1, 2.
    pub open spec fn component(self, index: int) -> T {
        if index == 0 {
            self.x
        } else if index == 1 {
            self.y
        } else {
            self.z
        }
    }

    /// This vertex with the coordinate at position `index` replaced.
    pub open spec fn with_component(self, index: int, value: T) -> Self {
        if index == 0 {
            Vertex { x: value, y: self.y, z: self.z }
        } else if index == 1 {
            Vertex { x: self.x, y: value, z: self.z }
        } else {
            Vertex { x: self.x, y: self.y, z: value }
        }
    }

    /// Builds the vertex at `(x, y, z)`.
    pub fn new(x: T, y: T, z: T) -> (v: Vertex<T>)
        ensures
            v == (Vertex { x, y, z }),
    {
        Vertex { x, y, z }
    }

    /// A reference to the coordinate at position `index`.
    pub fn index(&self, index: usize) -> (r: &T)
        requires
            index < 3,
        ensures
            *r == self.component(index as int),
    {
        if index == 0 {
            &self.x
        } else if index == 1 {
            &self.y
        } else {
            &self.z
        }
    }

    /// A mutable reference to the coordinate at position `index`.
    pub fn index_mut(&mut self, index: usize) -> (r: &mut T)
        requires
            index < 3,
        ensures
            *r == old(self).component(index as int),
            *final(self) == old(self).with_component(index as int, *final(r)),
    {
        if index == 0 {
            &mut self.x
        } else if index == 1 {
            &mut self.y
        } else {
            &mut self.z
        }
    }
}

/// What a [`Face`] holds: its vertex indices in order, and the position of
/// its patch in the mesh's patch list, if it has one.
pub struct FaceView {
    pub vertices: Seq<usize>,
    pub patch: Option<usize>,
}

/// A polygon of a mesh: an ordered list of positions in the mesh's vertex
/// list, and optionally the patch the polygon belongs to. A polygon has
/// three corners or more, but a face is taken as it comes: the constructors
/// accept any list.
#[derive(Debug, Clone)]
pub struct Face {
    vertices: Vec<usize>,
    patch: Option<usize>,
}

impl View for Face {
    type V = FaceView;

    closed spec fn view(&self) -> FaceView {
        FaceView { vertices: self.vertices@, patch: self.patch }
    }
}

impl FaceView {
    /// A polygon has at least three corners.
    pub open spec fn is_polygon(self) -> bool {
        self.vertices.len() >= 3
    }

    /// Exactly three indices, and neither the first and second nor the
    /// second and third are equal. The first and third are not compared.
    pub open spec fn is_triangle(self) -> bool {
        &&& self.vertices.len() == 3
        &&& self.vertices[0] != self.vertices[1]
        &&& self.vertices[1] != self.vertices[2]
    }
}

impl Face {
    /// A face over `vertices` that belongs to no patch.
    pub fn new(vertices: Vec<usize>) -> (f: Face)
        ensures
            f@ == (FaceView { vertices: vertices@, patch: None }),
    {
        Face { vertices, patch: None }
    }

    /// A face over `vertices` that belongs to the patch at position `patch`.
    pub fn with_patch(vertices: Vec<usize>, patch: usize) -> (f: Face)
        ensures
            f@ == (FaceView { vertices: vertices@, patch: Some(patch) }),
    {
        Face { vertices, patch: Some(patch) }
    }

    /// The vertex indices, in order.
    pub fn vertices(&self) -> (r: &Vec<usize>)
        ensures
            r@ == self@.vertices,
    {
        &self.vertices
    }

    /// The position of the face's patch, if it has one.
    pub fn patch(&self) -> (r: Option<usize>)
        ensures
            r == self@.patch,
    {
        self.patch
    }

    /// Whether the face is a triangle.
    pub fn is_triangle(&self) -> (r: bool)
        ensures
            r == self@.is_triangle(),
    {
        self.vertices.len() == 3 && self.vertices[0] != self.vertices[1] && self.vertices[1]
            != self.vertices[2]
    }

    /// A reference to the vertex index at position `index`.
    pub fn index(&self, index: usize) -> (r: &usize)
        requires
            index < self@.vertices.len(),
        ensures
            *r == self@.vertices[index as int],
    {
        &self.vertices[index]
    }

    /// A mutable reference to the vertex index at position `index`.
    pub fn index_mut(&mut self, index: usize) -> (r: &mut usize)
        requires
            index < old(self)@.vertices.len(),
        ensures
            *r == old(self)@.vertices[index as int],
            final(self)@ == (FaceView {
                vertices: old(self)@.vertices.update(index as int, *final(r)),
                patch: old(self)@.patch,
            }),
    {
        &mut self.vertices[index]
    }
}

/// The name given to the patch of faces that precede every group.
pub open spec fn default_patch_name() -> Seq<char> {
    "_DEFAULT"@
}

/// A named group of faces.
#[derive(Debug, Clone)]
pub struct Patch {
    name: String,
}

impl View for Patch {
    type V = Seq<char>;

    /// The name, as the characters it is spelled with.
    closed spec fn view(&self) -> Seq<char> {
        self.name@
    }
}

impl Patch {
    /// A patch called `name`.
    pub fn new(name: String) -> (p: Patch)
        ensures
            p@ == name@,
    {
        Patch { name }
    }

    /// The patch's name.
    pub fn name(&self) -> (r: &str)
        ensures
            r@ == self@,
    {
        self.name.as_str()
    }

    /// The name, taken out of the patch.
    pub fn into_name(self) -> (r: String)
        ensures
            r@ == self@,
    {
        self.name
    }
}

impl Default for Patch {
    /// The patch of faces that precede every group.
    fn default() -> (p: Patch)
        ensures
            p@ == default_patch_name(),
    {
        Patch::new("_DEFAULT".to_owned())
    }
}

} // verus!
