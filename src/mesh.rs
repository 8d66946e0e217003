//! Mesh ingestion: binary STL bytes into a non-indexed triangle soup, and the
//! choice between the binary and the ASCII encoding.
use crate::ascii::{ascii_solid, TextMesh};
use vstd::prelude::*;

verus! {

/// Length of the free-form header that opens a binary STL file.
pub const HEADER_LEN: usize = 80;

/// Offset of the first triangle record: the header, then a little-endian `u32`
/// triangle count.
pub const FIRST_RECORD: usize = 84;

/// Length of one triangle record: a normal, three vertices (three little-endian
/// `f32` each) and a two-byte attribute word.
pub const RECORD_LEN: usize = 50;

/// A 3D vector as it is stored in an STL file: the IEEE-754 single-precision
/// bit pattern of each coordinate, kept exactly as read.
#[derive(Clone, Copy, Debug, PartialEq, Eq, Structural)]
pub struct Vec3Bits {
    pub x: u32,
    pub y: u32,
    pub z: u32,
}

/// Why a byte sequence is not a binary STL solid.
#[derive(Clone, Copy, Debug, PartialEq, Eq, Structural)]
pub enum ParseError {
    /// Fewer bytes than the header and the triangle count take.
    MissingHeader,
    /// The count announces more triangle records than the bytes hold.
    Truncated { triangles: u32, available: usize },
}

/// A triangle soup: three vertex positions per triangle, each with the facet
/// normal of its triangle, in the order of the file.
#[derive(Clone, Debug)]
pub struct Mesh {
    pub vertices: Vec<Vec3Bits>,
    pub normals: Vec<Vec3Bits>,
}

/// The little-endian `u32` that starts at `off`.
pub open spec fn le_u32(b: Seq<u8>, off: int) -> u32 {
    (b[off] as u32) | ((b[off + 1] as u32) << 8u32) | ((b[off + 2] as u32) << 16u32) | ((
    b[off + 3] as u32) << 24u32)
}

/// The vector of three little-endian words that starts at `off`.
pub open spec fn vec3_at(b: Seq<u8>, off: int) -> Vec3Bits {
    Vec3Bits { x: le_u32(b, off), y: le_u32(b, off + 4), z: le_u32(b, off + 8) }
}

/// The triangle count that the file announces.
pub open spec fn triangle_count(b: Seq<u8>) -> nat {
    le_u32(b, HEADER_LEN as int) as nat
}

/// Where the record of triangle `t` starts; its normal stands there.
pub open spec fn record_start(t: int) -> int {
    FIRST_RECORD + RECORD_LEN * t
}

/// Where the `k`-th vertex of the soup stands: vertex `k % 3` of triangle `k / 3`.
pub open spec fn vertex_offset(k: int) -> int {
    record_start(k / 3) + 12 + 12 * (k % 3)
}

/// The bytes hold a header and every record that the count announces.
pub open spec fn is_binary_stl(b: Seq<u8>) -> bool {
    b.len() >= FIRST_RECORD && b.len() >= record_start(triangle_count(b) as int)
}

/// The error that bytes which are not a binary STL solid are reported with.
pub open spec fn stl_error(b: Seq<u8>) -> ParseError {
    if b.len() < FIRST_RECORD {
        ParseError::MissingHeader
    } else {
        ParseError::Truncated { triangles: le_u32(b, HEADER_LEN as int), available: b.len() as usize }
    }
}

impl Mesh {
    /// Layout of a triangle soup: one normal per vertex, three vertices per triangle.
    pub open spec fn wf(&self) -> bool {
        self.vertices@.len() == self.normals@.len() && self.vertices@.len() % 3 == 0
    }

    /// The mesh holds exactly the triangles of the binary STL `b`, in order,
    /// each vertex carrying its facet normal.
    pub open spec fn read_from(&self, b: Seq<u8>) -> bool {
        &&& self.wf()
        &&& self.vertices@.len() == 3 * triangle_count(b)
        &&& forall|k: int|
            0 <= k < self.vertices@.len() ==> #[trigger] self.vertices@[k] == vec3_at(
                b,
                vertex_offset(k),
            )
        &&& forall|k: int|
            0 <= k < self.normals@.len() ==> #[trigger] self.normals@[k] == vec3_at(
                b,
                record_start(k / 3),
            )
    }

    /// Reads a binary STL solid. Succeeds exactly when the bytes hold the
    /// 84-byte preamble and every record that its count announces; bytes past
    /// the last record are ignored.
    pub fn from_stl(b: &[u8]) -> (r: Result<Mesh, ParseError>)
        ensures
            is_binary_stl(b@) <==> r is Ok,
            !is_binary_stl(b@) ==> r == Err::<Mesh, ParseError>(stl_error(b@)),
            r matches Ok(m) ==> m.read_from(b@),
    {
        if b.len() < FIRST_RECORD {
            return Err(ParseError::MissingHeader);
        }
        let n = read_u32_le(b, HEADER_LEN);
        let avail = b.len() - FIRST_RECORD;
        if (n as usize) > avail / RECORD_LEN {
            return Err(ParseError::Truncated { triangles: n, available: b.len() });
        }
        let mut vertices: Vec<Vec3Bits> = Vec::new();
        let mut normals: Vec<Vec3Bits> = Vec::new();
        let mut t: usize = 0;
        while t < n as usize
            invariant
                n == le_u32(b@, HEADER_LEN as int),
                n as int * RECORD_LEN <= avail,
                avail == b@.len() - FIRST_RECORD,
                t <= n,
                vertices@.len() == 3 * t,
                normals@.len() == 3 * t,
                forall|k: int|
                    0 <= k < vertices@.len() ==> #[trigger] vertices@[k] == vec3_at(
                        b@,
                        vertex_offset(k),
                    ),
                forall|k: int|
                    0 <= k < normals@.len() ==> #[trigger] normals@[k] == vec3_at(
                        b@,
                        record_start(k / 3),
                    ),
            decreases n - t,
        {
            let start = FIRST_RECORD + RECORD_LEN * t;
            let normal = read_vec3(b, start);
            let mut j: usize = 0;
            while j < 3
                invariant
                    t < n,
                    start == record_start(t as int),
                    start + RECORD_LEN <= b.len(),
                    normal == vec3_at(b@, record_start(t as int)),
                    j <= 3,
                    vertices@.len() == 3 * t + j,
                    normals@.len() == 3 * t + j,
                    forall|k: int|
                        0 <= k < vertices@.len() ==> #[trigger] vertices@[k] == vec3_at(
                            b@,
                            vertex_offset(k),
                        ),
                    forall|k: int|
                        0 <= k < normals@.len() ==> #[trigger] normals@[k] == vec3_at(
                            b@,
                            record_start(k / 3),
                        ),
                decreases 3 - j,
            {
                proof {
                    let k = 3 * t + j;
                    vstd::arithmetic::div_mod::lemma_fundamental_div_mod_converse(
                        k as int,
                        3,
                        t as int,
                        j as int,
                    );
                }
                let v = read_vec3(b, start + 12 + 12 * j);
                vertices.push(v);
                normals.push(normal);
                j += 1;
            }
            t += 1;
        }
        Ok(Mesh { vertices, normals })
    }
}

/// A solid read from an STL file, in the encoding it was written in.
#[derive(Clone, Debug)]
pub enum StlSolid {
    /// Numbers are IEEE-754 bit patterns.
    Binary(Mesh),
    /// Numbers are spans of the input text.
    Ascii(TextMesh),
}

/// Reads an STL solid of either encoding. Text that follows the ASCII grammar
/// is read as ASCII; anything else is read as binary.
pub fn read_stl(b: &[u8]) -> (r: Result<StlSolid, ParseError>)
    ensures
        ascii_solid(b@) matches Some(fs) ==> (r matches Ok(StlSolid::Ascii(m)) && m.soup_of(fs)),
        ascii_solid(b@) is None ==> (is_binary_stl(b@) <==> r is Ok),
        ascii_solid(b@) is None ==> (r matches Ok(s) ==> (s matches StlSolid::Binary(m)
            && m.read_from(b@))),
        ascii_solid(b@) is None && !is_binary_stl(b@) ==> r == Err::<StlSolid, ParseError>(
            stl_error(b@),
        ),
        r matches Ok(s) ==> solid_of(s, b@),
{
    match TextMesh::from_ascii_stl(b) {
        Ok(m) => Ok(StlSolid::Ascii(m)),
        Err(_) => match Mesh::from_stl(b) {
            Ok(m) => Ok(StlSolid::Binary(m)),
            Err(e) => Err(e),
        },
    }
}

/// `s` is what `read_stl` makes of the bytes `b`.
pub open spec fn solid_of(s: StlSolid, b: Seq<u8>) -> bool {
    match s {
        StlSolid::Ascii(m) => match ascii_solid(b) {
            Some(fs) => m.soup_of(fs),
            None => false,
        },
        StlSolid::Binary(m) => ascii_solid(b) is None && m.read_from(b),
    }
}

/// Two solids of the same encoding with the same vertices and normals.
pub open spec fn same_solid(s1: StlSolid, s2: StlSolid) -> bool {
    match (s1, s2) {
        (StlSolid::Ascii(a1), StlSolid::Ascii(a2)) => a1.vertices@ == a2.vertices@ && a1.normals@
            == a2.normals@,
        (StlSolid::Binary(x1), StlSolid::Binary(x2)) => x1.vertices@ == x2.vertices@
            && x1.normals@ == x2.normals@,
        _ => false,
    }
}

/// Reading the same bytes twice gives the same mesh: what `read_stl` returns
/// is determined by the input alone, in either encoding.
pub proof fn lemma_reading_is_reproducible(b: Seq<u8>, s1: StlSolid, s2: StlSolid)
    requires
        solid_of(s1, b),
        solid_of(s2, b),
    ensures
        same_solid(s1, s2),
{
    match (s1, s2) {
        (StlSolid::Ascii(a1), StlSolid::Ascii(a2)) => {
            assert(a1.vertices@ =~= a2.vertices@);
            assert(a1.normals@ =~= a2.normals@);
        },
        (StlSolid::Binary(x1), StlSolid::Binary(x2)) => {
            assert(x1.vertices@ =~= x2.vertices@);
            assert(x1.normals@ =~= x2.normals@);
        },
        _ => {},
    }
}

/// The little-endian `u32` at `off`.
fn read_u32_le(b: &[u8], off: usize) -> (r: u32)
    requires
        off + 4 <= b.len(),
    ensures
        r == le_u32(b@, off as int),
{
    (b[off] as u32) | ((b[off + 1] as u32) << 8u32) | ((b[off + 2] as u32) << 16u32) | ((b[off
        + 3] as u32) << 24u32)
}

/// The three little-endian words at `off`.
fn read_vec3(b: &[u8], off: usize) -> (r: Vec3Bits)
    requires
        off + 12 <= b.len(),
    ensures
        r == vec3_at(b@, off as int),
{
    Vec3Bits { x: read_u32_le(b, off), y: read_u32_le(b, off + 4), z: read_u32_le(b, off + 8) }
}

} // verus!
