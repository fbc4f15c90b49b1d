//! The polygon soup: vertices, faces and patch names, each in the order in
//! which it was put in.

use crate::mesh::primitives::{Face, FaceView, Patch, Vertex};
use crate::scalar::Scalar;
use vstd::prelude::*;

verus! {

/// What a [`PolygonSoup`] holds.
pub struct SoupView<T: Scalar> {
    /// The vertices; a vertex's position here is its index.
    pub vertices: Seq<Vertex<T>>,
    /// The faces.
    pub faces: Seq<FaceView>,
    /// The names of the patches; a patch's position here is its index.
    pub patches: Seq<Seq<char>>,
}

impl<T: Scalar> SoupView<T> {
    /// The soup that holds nothing.
    pub open spec fn empty() -> Self {
        SoupView { vertices: Seq::empty(), faces: Seq::empty(), patches: Seq::empty() }
    }

    /// This soup with `vertex` behind its last vertex.
    pub open spec fn with_vertex(self, vertex: Vertex<T>) -> Self {
        SoupView { vertices: self.vertices.push(vertex), ..self }
    }

    /// This soup with `face` behind its last face.
    pub open spec fn with_face(self, face: FaceView) -> Self {
        SoupView { faces: self.faces.push(face), ..self }
    }

    /// This soup with a patch called `name` behind its last patch.
    pub open spec fn with_patch(self, name: Seq<char>) -> Self {
        SoupView { patches: self.patches.push(name), ..self }
    }

    /// This soup with the vertices of `vertices` put in one after the
    /// other, the first one first.
    pub open spec fn with_vertices(self, vertices: Seq<Vertex<T>>) -> Self
        decreases vertices.len(),
    {
        if vertices.len() == 0 {
            self
        } else {
            self.with_vertices(vertices.drop_last()).with_vertex(vertices.last())
        }
    }

    /// `face` names only vertices and patches that this soup holds.
    pub open spec fn holds(self, face: FaceView) -> bool {
        &&& forall|k: int|
            0 <= k < face.vertices.len() ==> (#[trigger] face.vertices[k]) < self.vertices.len()
        &&& face.patch matches Some(p) ==> p < self.patches.len()
    }

    /// Every face names only vertices and patches that the soup holds.
    pub open spec fn well_formed(self) -> bool {
        forall|i: int| 0 <= i < self.faces.len() ==> self.holds(#[trigger] self.faces[i])
    }
}

/// The views of the faces of `faces`.
pub open spec fn face_views(faces: Seq<Face>) -> Seq<FaceView> {
    faces.map_values(|f: Face| f@)
}

/// The views of the strings of `names`.
pub open spec fn name_views(names: Seq<String>) -> Seq<Seq<char>> {
    names.map_values(|n: String| n@)
}

/// A mesh without connectivity: a list of vertices, a list of faces over
/// them, and a list of patch names that partition the faces. Things are
/// only ever added, each behind the last of its kind, and a face is taken
/// as it comes: what it refers to is not looked up.
#[derive(Debug, Clone)]
pub struct PolygonSoup<T: Scalar> {
    vertices: Vec<Vertex<T>>,
    faces: Vec<Face>,
    patches: Vec<String>,
}

impl<T: Scalar> View for PolygonSoup<T> {
    type V = SoupView<T>;

    closed spec fn view(&self) -> SoupView<T> {
        SoupView {
            vertices: self.vertices@,
            faces: face_views(self.faces@),
            patches: name_views(self.patches@),
        }
    }
}

impl<T: Scalar> PolygonSoup<T> {
    /// The soup of the given vertices, faces and patch names.
    pub fn new(vertices: Vec<Vertex<T>>, faces: Vec<Face>, patches: Vec<String>) -> (soup:
        PolygonSoup<T>)
        ensures
            soup@ == (SoupView {
                vertices: vertices@,
                faces: face_views(faces@),
                patches: name_views(patches@),
            }),
    {
        PolygonSoup { vertices, faces, patches }
    }

    /// The vertices, in the order in which they were put in.
    pub fn vertices(&self) -> (r: &Vec<Vertex<T>>)
        ensures
            r@ == self@.vertices,
    {
        &self.vertices
    }

    /// The faces, in the order in which they were put in.
    pub fn faces(&self) -> (r: &Vec<Face>)
        ensures
            face_views(r@) == self@.faces,
    {
        &self.faces
    }

    /// The patch names, in the order in which they were put in.
    pub fn patches(&self) -> (r: &Vec<String>)
        ensures
            name_views(r@) == self@.patches,
    {
        &self.patches
    }

    /// The soup holds no more of a kind than a `Vec` can.
    pub proof fn lemma_sizes_fit(&self)
        ensures
            self@.vertices.len() <= usize::MAX,
            self@.faces.len() <= usize::MAX,
            self@.patches.len() <= usize::MAX,
    {
        assert(self.vertices.len() == self@.vertices.len());
        assert(self.faces.len() == self@.faces.len());
        assert(self.patches.len() == self@.patches.len());
    }

    /// Puts `vertex` behind the last vertex.
    pub fn insert_vertex(&mut self, vertex: Vertex<T>)
        ensures
            final(self)@ == old(self)@.with_vertex(vertex),
    {
        self.vertices.push(vertex);
    }

    /// Puts `face` behind the last face.
    pub fn insert_face(&mut self, face: Face)
        ensures
            final(self)@ == old(self)@.with_face(face@),
    {
        self.faces.push(face);
        assert(face_views(self.faces@) =~= face_views(old(self).faces@).push(face@));
    }

    /// Puts `patch` behind the last patch.
    pub fn insert_patch(&mut self, patch: Patch)
        ensures
            final(self)@ == old(self)@.with_patch(patch@),
    {
        let name = patch.into_name();
        self.patches.push(name);
        assert(name_views(self.patches@) =~= name_views(old(self).patches@).push(name@));
    }
}

impl<T: Scalar> Default for PolygonSoup<T> {
    /// The soup that holds nothing.
    fn default() -> (soup: PolygonSoup<T>)
        ensures
            soup@ == SoupView::<T>::empty(),
    {
        let soup = PolygonSoup { vertices: Vec::new(), faces: Vec::new(), patches: Vec::new() };
        assert(soup@.faces =~= Seq::<FaceView>::empty());
        assert(soup@.patches =~= Seq::<Seq<char>>::empty());
        soup
    }
}

/// Vertices come back as they went in: after putting the vertices of
/// `vertices` into `soup` one after the other, the soup's vertex list is the
/// one it had followed by `vertices`, and nothing else has changed.
pub proof fn lemma_vertices_round_trip<T: Scalar>(soup: SoupView<T>, vertices: Seq<Vertex<T>>)
    ensures
        soup.with_vertices(vertices).vertices == soup.vertices + vertices,
        soup.with_vertices(vertices).vertices.len() == soup.vertices.len() + vertices.len(),
        soup.with_vertices(vertices).faces == soup.faces,
        soup.with_vertices(vertices).patches == soup.patches,
        SoupView::<T>::empty().with_vertices(vertices).vertices == vertices,
    decreases vertices.len(),
{
    if vertices.len() > 0 {
        lemma_vertices_round_trip(soup, vertices.drop_last());
    }
    lemma_vertices_round_trip_from_empty(vertices);
}

/// Put into the empty soup, `vertices` is the vertex list.
proof fn lemma_vertices_round_trip_from_empty<T: Scalar>(vertices: Seq<Vertex<T>>)
    ensures
        SoupView::<T>::empty().with_vertices(vertices).vertices == vertices,
    decreases vertices.len(),
{
    if vertices.len() > 0 {
        lemma_vertices_round_trip_from_empty::<T>(vertices.drop_last());
    }
}

/// A new vertex or a new patch leaves a well-formed soup well formed, and
/// so does a new face that names only what the soup holds.
pub proof fn lemma_insertions_keep_well_formed<T: Scalar>(
    soup: SoupView<T>,
    vertex: Vertex<T>,
    name: Seq<char>,
    face: FaceView,
)
    requires
        soup.well_formed(),
    ensures
        soup.with_vertex(vertex).well_formed(),
        soup.with_patch(name).well_formed(),
        soup.holds(face) <==> soup.with_face(face).well_formed(),
{
    let more = soup.with_face(face);
    if more.well_formed() {
        assert(more.holds(more.faces[soup.faces.len() as int]));
    }
}

} // verus!
