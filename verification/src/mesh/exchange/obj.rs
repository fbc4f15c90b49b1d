//! The WaveFront OBJ subset: vertices, faces and groups.
//!
//! A source is read line by line. The first token of a line says what the
//! line is: `v` a vertex, `f` a face, `g` a group. Any other line is passed
//! over. What the reading of a text yields is fixed by [`is_import`].

use crate::mesh::exchange::source::{self, path_names_gzip, read_text};
use crate::mesh::exchange::text::{
    self, chars, copy_range, find_line_end, join, parse_usize, split_tokens, to_string,
};
use crate::mesh::primitives::{self, Face, FaceView, Patch, Vertex};
use crate::mesh::soup::{PolygonSoup, SoupView};
use crate::scalar::{self, Scalar};
use vstd::prelude::*;

verus! {

/// Why a source could not be read as a mesh.
#[derive(Debug, Clone, Copy, PartialEq, Eq, Structural)]
pub enum ImportError {
    /// The bytes are no text: not a gzip stream where the path names one,
    /// not UTF-8.
    Unreadable,
    /// A vertex line does not hold exactly three numbers.
    VertexArity,
    /// A face line holds fewer than three vertex indices.
    FaceArity,
    /// A face line holds the index 0; indices count from 1.
    ZeroIndex,
}

impl ImportError {
    /// What [`ImportError::message`] says of each error.
    pub open spec fn message_text(self) -> Seq<char> {
        match self {
            ImportError::Unreadable => "source is not readable as text"@,
            ImportError::VertexArity => "vertex must be three-dimension"@,
            ImportError::FaceArity => "face must have at least 3 vertices"@,
            ImportError::ZeroIndex => "face index must be at least 1"@,
        }
    }

    /// The error in words.
    pub fn message(&self) -> (r: &'static str)
        ensures
            r@ == self.message_text(),
    {
        match self {
            ImportError::Unreadable => "source is not readable as text",
            ImportError::VertexArity => "vertex must be three-dimension",
            ImportError::FaceArity => "face must have at least 3 vertices",
            ImportError::ZeroIndex => "face index must be at least 1",
        }
    }
}

/// The values of `outcomes`, in order, the `None`s left out.
pub open spec fn values_of<T>(outcomes: Seq<Option<T>>) -> Seq<T>
    decreases outcomes.len(),
{
    if outcomes.len() == 0 {
        Seq::empty()
    } else {
        match outcomes.last() {
            Some(value) => values_of(outcomes.drop_last()).push(value),
            None => values_of(outcomes.drop_last()),
        }
    }
}

/// `values` is what reading `args` as numbers can yield: each token is
/// read on its own, and those that spell no number are left out.
pub open spec fn is_numbers<T: Scalar>(args: Seq<Seq<char>>, values: Seq<T>) -> bool {
    exists|outcomes: Seq<Option<T>>|
        {
            &&& outcomes.len() == args.len()
            &&& forall|i: int|
                0 <= i < args.len() ==> scalar::is_parsed(args[i], #[trigger] outcomes[i])
            &&& values == #[trigger] values_of(outcomes)
        }
}

/// The vertex that the numbers of a vertex line give: there must be
/// exactly three, and they are `x`, `y` and `z` in this order.
pub open spec fn vertex_of<T: Scalar>(values: Seq<T>) -> Result<Vertex<T>, ImportError> {
    if values.len() == 3 {
        Ok(Vertex { x: values[0], y: values[1], z: values[2] })
    } else {
        Err(ImportError::VertexArity)
    }
}

/// The vertex positions that the tokens of a face line name. A token that
/// spells no `usize` is left out; one that spells a positive number names
/// the position one below it; the number 0 names none and is an error.
pub open spec fn face_indices(args: Seq<Seq<char>>) -> Result<Seq<usize>, ImportError>
    decreases args.len(),
{
    if args.len() == 0 {
        Ok(Seq::empty())
    } else {
        match face_indices(args.drop_last()) {
            Err(e) => Err(e),
            Ok(indices) => match text::usize_value(args.last()) {
                None => Ok(indices),
                Some(n) => if n == 0 {
                    Err(ImportError::ZeroIndex)
                } else {
                    Ok(indices.push((n - 1) as usize))
                },
            },
        }
    }
}

/// `soup` with a patch for its next face to belong to: `soup` itself if
/// it has a patch, else `soup` with the default patch.
pub open spec fn with_current_patch<T: Scalar>(soup: SoupView<T>) -> SoupView<T> {
    if soup.patches.len() == 0 {
        soup.with_patch(primitives::default_patch_name())
    } else {
        soup
    }
}

/// What a vertex line with arguments `args` can make of `soup`.
pub open spec fn is_vertex_step<T: Scalar>(
    soup: SoupView<T>,
    args: Seq<Seq<char>>,
    next: Result<SoupView<T>, ImportError>,
) -> bool {
    exists|values: Seq<T>|
        #![trigger is_numbers(args, values)]
        is_numbers(args, values) && next == match vertex_of(values) {
            Ok(vertex) => Ok(soup.with_vertex(vertex)),
            Err(e) => Err(e),
        }
}

/// What a face line with arguments `args` makes of `soup`: a face over the
/// positions that `args` names, in the last patch declared so far.
pub open spec fn face_step<T: Scalar>(
    soup: SoupView<T>,
    args: Seq<Seq<char>>,
) -> Result<SoupView<T>, ImportError> {
    match face_indices(args) {
        Err(e) => Err(e),
        Ok(indices) => if indices.len() < 3 {
            Err(ImportError::FaceArity)
        } else {
            let grouped = with_current_patch(soup);
            let patch = Some((grouped.patches.len() - 1) as usize);
            Ok(grouped.with_face(FaceView { vertices: indices, patch }))
        },
    }
}

/// What a group line with arguments `args` makes of `soup`: a new patch,
/// named by the arguments with single spaces between them.
pub open spec fn group_step<T: Scalar>(soup: SoupView<T>, args: Seq<Seq<char>>) -> SoupView<T> {
    soup.with_patch(text::joined(args))
}

/// What the line `line` can make of `soup`.
pub open spec fn is_line_step<T: Scalar>(
    soup: SoupView<T>,
    line: Seq<char>,
    next: Result<SoupView<T>, ImportError>,
) -> bool {
    let words = text::tokens(line);
    if words.len() > 0 && words[0] == seq!['v'] {
        is_vertex_step(soup, words.skip(1), next)
    } else if words.len() > 0 && words[0] == seq!['f'] {
        next == face_step(soup, words.skip(1))
    } else if words.len() > 0 && words[0] == seq!['g'] {
        next == Ok::<_, ImportError>(group_step(soup, words.skip(1)))
    } else {
        next == Ok::<_, ImportError>(soup)
    }
}

/// What the lines of `text` from position `from` on can make of `soup`:
/// each line in turn, up to the first that fails.
pub open spec fn is_import_from<T: Scalar>(
    text: Seq<char>,
    from: int,
    soup: SoupView<T>,
    result: Result<SoupView<T>, ImportError>,
) -> bool
    decreases text.len() - from,
{
    if 0 <= from < text.len() {
        proof {
            text::lemma_line_end_bounds(text, from);
        }
        let end = text::line_end(text, from);
        exists|next: Result<SoupView<T>, ImportError>|
            #![trigger is_line_step(soup, text.subrange(from, end), next)]
            is_line_step(soup, text.subrange(from, end), next) && match next {
                Ok(more) => if end < text.len() {
                    is_import_from(text, end + 1, more, result)
                } else {
                    result == Ok::<_, ImportError>(more)
                },
                Err(e) => result == Err::<SoupView<T>, _>(e),
            }
    } else {
        result == Ok::<_, ImportError>(soup)
    }
}

/// What reading `text` as a mesh can yield.
pub open spec fn is_import<T: Scalar>(
    text: Seq<char>,
    result: Result<SoupView<T>, ImportError>,
) -> bool {
    is_import_from(text, 0, SoupView::<T>::empty(), result)
}

/// The soup that a step leaves behind, or the step's error.
pub open spec fn step_view<T: Scalar>(
    r: Result<(), ImportError>,
    soup: SoupView<T>,
) -> Result<SoupView<T>, ImportError> {
    match r {
        Ok(_) => Ok(soup),
        Err(e) => Err(e),
    }
}

/// The view of an imported soup, or the import's error.
pub open spec fn import_view<T: Scalar>(r: Result<PolygonSoup<T>, ImportError>) -> Result<
    SoupView<T>,
    ImportError,
> {
    match r {
        Ok(soup) => Ok(soup@),
        Err(e) => Err(e),
    }
}

/// An OBJ source, named by its path.
#[derive(Debug, Clone)]
pub struct ObjImporter<'a> {
    path: &'a str,
}

impl<'a> View for ObjImporter<'a> {
    type V = Seq<char>;

    /// The path, as the characters it is spelled with.
    closed spec fn view(&self) -> Seq<char> {
        self.path@
    }
}

impl<'a> ObjImporter<'a> {
    /// An importer for the source at `path`.
    pub fn new(path: &'a str) -> (importer: ObjImporter<'a>)
        ensures
            importer@ == path@,
    {
        ObjImporter { path }
    }

    /// The path of the source.
    pub fn path(&self) -> (r: &'a str)
        ensures
            r@ == self@,
    {
        self.path
    }

    /// Whether the path names a gzip file.
    pub fn is_gzip(&self) -> (r: bool)
        ensures
            r == source::names_gzip(self@),
    {
        path_names_gzip(self.path)
    }

    /// The text of the source, given the bytes that the file at the path
    /// holds: unpacked from gzip if the path names a gzip file, read as
    /// UTF-8 otherwise.
    pub fn read_to_string(&self, bytes: &[u8]) -> (r: Result<String, ImportError>)
        ensures
            match r {
                Ok(text) => source::text_of(source::names_gzip(self@), bytes@) == Some(text@),
                Err(e) => {
                    &&& e == ImportError::Unreadable
                    &&& source::text_of(source::names_gzip(self@), bytes@) is None
                },
            },
    {
        match read_text(bytes, self.is_gzip()) {
            Some(text) => Ok(text),
            None => Err(ImportError::Unreadable),
        }
    }

    /// Reads each token of `args` as a number and keeps those that are one.
    pub fn parse_numbers<T: Scalar>(args: &[Vec<char>]) -> (values: Vec<T>)
        ensures
            is_numbers(text::views(args@), values@),
    {
        let mut values: Vec<T> = Vec::new();
        let ghost mut outcomes: Seq<Option<T>> = Seq::empty();
        let ghost words = text::views(args@);
        let mut i: usize = 0;
        while i < args.len()
            invariant
                i <= args@.len(),
                words == text::views(args@),
                outcomes.len() == i,
                forall|j: int|
                    0 <= j < i ==> scalar::is_parsed(words[j], #[trigger] outcomes[j]),
                values@ == values_of(outcomes),
            decreases args@.len() - i,
        {
            let token = to_string(args[i].as_slice());
            let spelled = token.as_str();
            let outcome = T::parse(spelled);
            assert(scalar::is_parsed(words[i as int], outcome));
            proof {
                let ghost before = outcomes;
                outcomes = outcomes.push(outcome);
                assert(outcomes.drop_last() =~= before);
            }
            if let Some(value) = outcome {
                values.push(value);
            }
            i += 1;
        }
        values
    }

    /// The vertex at the coordinates `values`, which must be three.
    pub fn vertex_from_numbers<T: Scalar>(values: &Vec<T>) -> (r: Result<Vertex<T>, ImportError>)
        ensures
            r == vertex_of(values@),
    {
        if values.len() != 3 {
            return Err(ImportError::VertexArity);
        }
        Ok(Vertex::new(values[0], values[1], values[2]))
    }

    /// Takes a vertex line's arguments: puts the vertex they give behind
    /// the last vertex of `soup`, or fails and leaves `soup` as it is.
    pub fn parse_vertex<T: Scalar>(args: &[Vec<char>], soup: &mut PolygonSoup<T>) -> (r: Result<
        (),
        ImportError,
    >)
        ensures
            is_vertex_step(old(soup)@, text::views(args@), step_view(r, final(soup)@)),
            r is Err ==> final(soup)@ == old(soup)@,
    {
        let values = Self::parse_numbers::<T>(args);
        match Self::vertex_from_numbers(&values) {
            Ok(vertex) => {
                soup.insert_vertex(vertex);
                Ok(())
            },
            Err(e) => Err(e),
        }
    }

    /// Reads each token of `args` as a vertex index counted from one, and
    /// gives the positions they name; tokens that spell no index are left
    /// out.
    pub fn parse_indices(args: &[Vec<char>]) -> (r: Result<Vec<usize>, ImportError>)
        ensures
            match r {
                Ok(indices) => face_indices(text::views(args@)) == Ok::<_, ImportError>(indices@),
                Err(e) => face_indices(text::views(args@)) == Err::<Seq<usize>, _>(e),
            },
    {
        let mut indices: Vec<usize> = Vec::new();
        let ghost words = text::views(args@);
        let mut i: usize = 0;
        while i < args.len()
            invariant
                i <= args@.len(),
                words == text::views(args@),
                face_indices(words.take(i as int)) == Ok::<_, ImportError>(indices@),
            decreases args@.len() - i,
        {
            let ghost next = words.take(i + 1);
            assert(next.drop_last() =~= words.take(i as int));
            match parse_usize(args[i].as_slice()) {
                Some(n) => {
                    if n == 0 {
                        proof {
                            lemma_face_indices_error(words, i + 1);
                        }
                        return Err(ImportError::ZeroIndex);
                    }
                    indices.push(n - 1);
                },
                None => {},
            }
            i += 1;
        }
        assert(words.take(args@.len() as int) =~= words);
        Ok(indices)
    }

    /// Takes a face line's arguments: puts the face they give behind the
    /// last face of `soup`, in the last patch declared, or fails and leaves
    /// `soup` as it is.
    pub fn parse_face<T: Scalar>(args: &[Vec<char>], soup: &mut PolygonSoup<T>) -> (r: Result<
        (),
        ImportError,
    >)
        ensures
            step_view(r, final(soup)@) == face_step(old(soup)@, text::views(args@)),
            r is Err ==> final(soup)@ == old(soup)@,
    {
        let indices = match Self::parse_indices(args) {
            Ok(indices) => indices,
            Err(e) => {
                return Err(e);
            },
        };
        if indices.len() < 3 {
            return Err(ImportError::FaceArity);
        }
        if soup.patches().len() == 0 {
            soup.insert_patch(Patch::default());
        }
        let patch = soup.patches().len() - 1;
        let face = Face::with_patch(indices, patch);
        soup.insert_face(face);
        Ok(())
    }

    /// Takes a group line's arguments: puts a patch named by them behind
    /// the last patch of `soup`.
    pub fn parse_group<T: Scalar>(args: &[Vec<char>], soup: &mut PolygonSoup<T>)
        ensures
            final(soup)@ == group_step(old(soup)@, text::views(args@)),
    {
        let name = join(args);
        let patch = Patch::new(name);
        soup.insert_patch(patch);
    }

    /// Takes one line: a vertex, a face or a group goes into `soup`, any
    /// other line is passed over. Where the line fails, `soup` stays as it
    /// is.
    pub fn parse_line<T: Scalar>(line: &[char], soup: &mut PolygonSoup<T>) -> (r: Result<
        (),
        ImportError,
    >)
        ensures
            is_line_step(old(soup)@, line@, step_view(r, final(soup)@)),
            r is Err ==> final(soup)@ == old(soup)@,
    {
        let words = split_tokens(line);
        if words.len() == 0 || words[0].len() != 1 {
            return Ok(());
        }
        let ghost first = text::views(words@)[0];
        let args = vstd::slice::slice_subrange(words.as_slice(), 1, words.len());
        assert(text::views(args@) =~= text::views(words@).skip(1));
        let directive = words[0][0];
        assert(first =~= seq![directive]);
        if directive == 'v' {
            Self::parse_vertex(args, soup)
        } else if directive == 'f' {
            Self::parse_face(args, soup)
        } else if directive == 'g' {
            Self::parse_group(args, soup);
            Ok(())
        } else {
            Ok(())
        }
    }

    /// Reads `text` as a mesh. In the mesh that comes out every face is a
    /// polygon and belongs to a patch of the mesh.
    pub fn import_text<T: Scalar>(text: &str) -> (r: Result<PolygonSoup<T>, ImportError>)
        ensures
            is_import(text@, import_view(r)),
            r matches Ok(soup) ==> is_grouped(soup@),
    {
        let content = chars(text);
        let n: usize = content.len();
        let mut soup: PolygonSoup<T> = PolygonSoup::default();
        let mut from: usize = 0;
        while from < n
            invariant
                from <= n,
                n == content@.len(),
                content@ == text@,
                is_grouped(soup@),
                forall|result: Result<SoupView<T>, ImportError>|
                    #[trigger] is_import_from(text@, from as int, soup@, result) ==> is_import(
                        text@,
                        result,
                    ),
            decreases n - from,
        {
            let end = find_line_end(content.as_slice(), from);
            let line = copy_range(content.as_slice(), from, end);
            let ghost before = soup@;
            let step = Self::parse_line(line.as_slice(), &mut soup);
            match step {
                Err(e) => {
                    assert(is_import_from(text@, from as int, before, Err::<SoupView<T>, _>(e)));
                    return Err(e);
                },
                Ok(_) => {},
            }
            proof {
                soup.lemma_sizes_fit();
                lemma_line_keeps_grouped(before, text@.subrange(from as int, end as int), soup@);
            }
            let follow: usize = if end < n {
                end + 1
            } else {
                n
            };
            assert forall|result: Result<SoupView<T>, ImportError>|
                #[trigger] is_import_from(text@, follow as int, soup@, result) implies is_import(
                text@,
                result,
            ) by {
                assert(is_import_from(text@, from as int, before, result));
            }
            from = follow;
        }
        assert(is_import_from(text@, from as int, soup@, Ok::<_, ImportError>(soup@)));
        Ok(soup)
    }

    /// Reads the source as a mesh, given the bytes that the file at the
    /// path holds.
    pub fn import<T: Scalar>(&self, bytes: &[u8]) -> (r: Result<PolygonSoup<T>, ImportError>)
        ensures
            r matches Ok(soup) ==> is_grouped(soup@),
            match source::text_of(source::names_gzip(self@), bytes@) {
                Some(text) => is_import(text, import_view(r)),
                None => r matches Err(e) && e == ImportError::Unreadable,
            },
    {
        match self.read_to_string(bytes) {
            Ok(text) => Self::import_text(text.as_str()),
            Err(e) => Err(e),
        }
    }
}

/// Once a prefix of a face line's arguments has failed, the line has.
pub proof fn lemma_face_indices_error(args: Seq<Seq<char>>, k: int)
    requires
        0 <= k <= args.len(),
        face_indices(args.take(k)) is Err,
    ensures
        face_indices(args) == face_indices(args.take(k)),
    decreases args.len(),
{
    if k == args.len() {
        assert(args.take(k) =~= args);
    } else {
        assert(args.drop_last().take(k) =~= args.take(k));
        lemma_face_indices_error(args.drop_last(), k);
    }
}

/// Every face of `soup` is a polygon and belongs to a patch that `soup`
/// holds.
pub open spec fn is_grouped<T: Scalar>(soup: SoupView<T>) -> bool {
    forall|i: int|
        0 <= i < soup.faces.len() ==> {
            &&& (#[trigger] soup.faces[i]).is_polygon()
            &&& soup.faces[i].patch matches Some(p) && p < soup.patches.len()
        }
}

/// A face belongs to the group declared last before it: after a group line
/// and then a face line, the new face is the last face, the new patch is
/// the last patch and bears the group's name, and the face refers to it.
pub proof fn lemma_face_joins_last_group<T: Scalar>(
    soup: SoupView<T>,
    group: Seq<Seq<char>>,
    face: Seq<Seq<char>>,
)
    requires
        soup.patches.len() < usize::MAX,
        face_step(group_step(soup, group), face) is Ok,
    ensures
        ({
            let after = face_step(group_step(soup, group), face)->Ok_0;
            &&& after.vertices == soup.vertices
            &&& after.patches == soup.patches.push(text::joined(group))
            &&& after.faces.len() == soup.faces.len() + 1
            &&& after.faces.drop_last() == soup.faces
            &&& after.faces.last().patch == Some(soup.patches.len() as usize)
            &&& Ok::<_, ImportError>(after.faces.last().vertices) == face_indices(face)
        }),
{
}

/// A face that no group precedes belongs to the default patch, which is
/// then the first patch.
pub proof fn lemma_face_without_group<T: Scalar>(
    soup: SoupView<T>,
    face: Seq<Seq<char>>,
)
    requires
        soup.patches.len() == 0,
        face_step(soup, face) is Ok,
    ensures
        ({
            let after = face_step(soup, face)->Ok_0;
            &&& after.patches == seq![primitives::default_patch_name()]
            &&& after.faces.last().patch == Some(0usize)
        }),
{
}

/// One line keeps a soup grouped.
pub proof fn lemma_line_keeps_grouped<T: Scalar>(
    soup: SoupView<T>,
    line: Seq<char>,
    next: SoupView<T>,
)
    requires
        is_grouped(soup),
        soup.patches.len() <= usize::MAX,
        is_line_step(soup, line, Ok::<_, ImportError>(next)),
    ensures
        is_grouped(next),
{
}

} // verus!
