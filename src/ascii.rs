//! Mesh ingestion for ASCII STL: the solid's structure is read here, and each
//! number is kept as the span of its text in the input.
use vstd::prelude::*;

verus! {

/// A run of input bytes, `start..end`.
#[derive(Clone, Copy, Debug, PartialEq, Eq, Structural)]
pub struct Span {
    pub start: usize,
    pub end: usize,
}

/// The three number tokens of a normal or a vertex.
#[derive(Clone, Copy, Debug, PartialEq, Eq, Structural)]
pub struct Vec3Text {
    pub x: Span,
    pub y: Span,
    pub z: Span,
}

/// One facet as written: its normal and its three vertices.
#[derive(Clone, Copy, Debug, PartialEq, Eq, Structural)]
pub struct FacetText {
    pub normal: Vec3Text,
    pub v0: Vec3Text,
    pub v1: Vec3Text,
    pub v2: Vec3Text,
}

/// Why a text is not an ASCII STL solid.
#[derive(Clone, Copy, Debug, PartialEq, Eq, Structural)]
pub enum AsciiError {
    /// A token is not the one the grammar asks for, or the text ends early.
    Malformed,
}

/// The words of the ASCII STL grammar.
#[derive(Clone, Copy, Debug, PartialEq, Eq, Structural)]
pub enum Keyword {
    Solid,
    Facet,
    Normal,
    Outer,
    Loop,
    Vertex,
    EndLoop,
    EndFacet,
    EndSolid,
}

/// A triangle soup in the layout of the binary reader: three vertices per
/// facet, each with the facet's normal, numbers kept as text spans.
#[derive(Clone, Debug)]
pub struct TextMesh {
    pub vertices: Vec<Vec3Text>,
    pub normals: Vec<Vec3Text>,
}

/// Separator bytes between tokens: space, tab, line feed, vertical tab, form
/// feed, carriage return.
pub open spec fn is_space(c: u8) -> bool {
    c == 32 || (9 <= c && c <= 13)
}

/// The first position at or after `i` that is not a separator.
pub open spec fn skip_space(b: Seq<u8>, i: int) -> int
    decreases b.len() - i,
{
    if 0 <= i < b.len() && is_space(b[i]) {
        skip_space(b, i + 1)
    } else {
        i
    }
}

/// The first position at or after `i` that is a separator or the end.
pub open spec fn word_end(b: Seq<u8>, i: int) -> int
    decreases b.len() - i,
{
    if 0 <= i < b.len() && !is_space(b[i]) {
        word_end(b, i + 1)
    } else {
        i
    }
}

/// The token that follows position `i`; empty at the end of the text.
pub open spec fn token_after(b: Seq<u8>, i: int) -> Span {
    Span { start: skip_space(b, i) as usize, end: word_end(b, skip_space(b, i)) as usize }
}

pub open spec fn text_of(b: Seq<u8>, s: Span) -> Seq<u8> {
    b.subrange(s.start as int, s.end as int)
}

/// How a keyword is spelled, in ASCII bytes.
pub open spec fn spelling(k: Keyword) -> Seq<u8> {
    match k {
        Keyword::Solid => seq![115u8, 111, 108, 105, 100],
        Keyword::Facet => seq![102u8, 97, 99, 101, 116],
        Keyword::Normal => seq![110u8, 111, 114, 109, 97, 108],
        Keyword::Outer => seq![111u8, 117, 116, 101, 114],
        Keyword::Loop => seq![108u8, 111, 111, 112],
        Keyword::Vertex => seq![118u8, 101, 114, 116, 101, 120],
        Keyword::EndLoop => seq![101u8, 110, 100, 108, 111, 111, 112],
        Keyword::EndFacet => seq![101u8, 110, 100, 102, 97, 99, 101, 116],
        Keyword::EndSolid => seq![101u8, 110, 100, 115, 111, 108, 105, 100],
    }
}

/// The keyword `k` follows position `i`; where it ends.
pub open spec fn expect(b: Seq<u8>, i: usize, k: Keyword) -> Option<usize> {
    let t = token_after(b, i as int);
    if text_of(b, t) == spelling(k) {
        Some(t.end)
    } else {
        None
    }
}

/// A number token follows position `i`: any non-empty token.
pub open spec fn number(b: Seq<u8>, i: usize) -> Option<(Span, usize)> {
    let t = token_after(b, i as int);
    if t.start < t.end {
        Some((t, t.end))
    } else {
        None
    }
}

/// Three number tokens follow position `i`.
pub open spec fn triple(b: Seq<u8>, i: usize) -> Option<(Vec3Text, usize)> {
    match number(b, i) {
        None => None,
        Some((x, i1)) => match number(b, i1) {
            None => None,
            Some((y, i2)) => match number(b, i2) {
                None => None,
                Some((z, i3)) => Some((Vec3Text { x, y, z }, i3)),
            },
        },
    }
}

/// `vertex x y z` follows position `i`.
pub open spec fn vertex_line(b: Seq<u8>, i: usize) -> Option<(Vec3Text, usize)> {
    match expect(b, i, Keyword::Vertex) {
        None => None,
        Some(j) => triple(b, j),
    }
}

/// The three vertex lines of a facet's outer loop follow position `i`.
pub open spec fn vertex_lines(b: Seq<u8>, i: usize) -> Option<((Vec3Text, Vec3Text, Vec3Text), usize)> {
    match vertex_line(b, i) {
        None => None,
        Some((v0, i1)) => match vertex_line(b, i1) {
            None => None,
            Some((v1, i2)) => match vertex_line(b, i2) {
                None => None,
                Some((v2, i3)) => Some(((v0, v1, v2), i3)),
            },
        },
    }
}

/// `facet normal n n n outer loop` (three vertex lines) `endloop endfacet`
/// follows position `i`.
pub open spec fn facet(b: Seq<u8>, i: usize) -> Option<(FacetText, usize)> {
    match expect(b, i, Keyword::Facet) {
        None => None,
        Some(i1) => match expect(b, i1, Keyword::Normal) {
            None => None,
            Some(i2) => match triple(b, i2) {
                None => None,
                Some((normal, i3)) => match expect(b, i3, Keyword::Outer) {
                    None => None,
                    Some(i4) => match expect(b, i4, Keyword::Loop) {
                        None => None,
                        Some(i5) => match vertex_lines(b, i5) {
                            None => None,
                            Some((vertices, i6)) => match expect(b, i6, Keyword::EndLoop) {
                                None => None,
                                Some(i7) => match expect(b, i7, Keyword::EndFacet) {
                                    None => None,
                                    Some(i8) => Some((FacetText { normal, v0: vertices.0, v1: vertices.1, v2: vertices.2 }, i8)),
                                },
                            },
                        },
                    },
                },
            },
        },
    }
}

/// Where the solid's name ends: at the first token that opens a facet or
/// closes the solid, or at the end of the text.
pub open spec fn name_end(b: Seq<u8>, i: usize) -> usize
    decreases b.len() - i,
{
    let t = token_after(b, i as int);
    if t.start >= t.end || text_of(b, t) == spelling(Keyword::Facet) || text_of(b, t) == spelling(
        Keyword::EndSolid,
    ) {
        i
    } else if i < t.end <= b.len() {
        name_end(b, t.end)
    } else {
        i
    }
}

/// The facets that follow position `i` up to `endsolid`, and where that
/// keyword ends.
pub open spec fn facets(b: Seq<u8>, i: usize) -> Option<(Seq<FacetText>, usize)>
    decreases b.len() - i,
{
    let t = token_after(b, i as int);
    if text_of(b, t) == spelling(Keyword::EndSolid) {
        Some((Seq::empty(), t.end))
    } else {
        match facet(b, i) {
            None => None,
            Some((f, j)) => if i < j <= b.len() {
                match facets(b, j) {
                    None => None,
                    Some((fs, k)) => Some((seq![f] + fs, k)),
                }
            } else {
                None
            },
        }
    }
}

/// The facets of an ASCII STL solid: `solid`, an optional name, the facets,
/// `endsolid`; whatever follows is not read.
pub open spec fn ascii_solid(b: Seq<u8>) -> Option<Seq<FacetText>> {
    match expect(b, 0, Keyword::Solid) {
        None => None,
        Some(i) => match facets(b, name_end(b, i)) {
            None => None,
            Some((fs, _)) => Some(fs),
        },
    }
}

/// Vertex `j` (0, 1 or 2) of a facet.
pub open spec fn corner(f: FacetText, j: int) -> Vec3Text {
    if j == 0 {
        f.v0
    } else if j == 1 {
        f.v1
    } else {
        f.v2
    }
}

impl TextMesh {
    /// The mesh is the triangle soup of `fs`: three vertices per facet, in
    /// order, each with the facet's normal.
    pub open spec fn soup_of(&self, fs: Seq<FacetText>) -> bool {
        &&& self.vertices@.len() == 3 * fs.len()
        &&& self.normals@.len() == 3 * fs.len()
        &&& forall|k: int|
            0 <= k < self.vertices@.len() ==> #[trigger] self.vertices@[k] == corner(
                fs[k / 3],
                k % 3,
            )
        &&& forall|k: int|
            0 <= k < self.normals@.len() ==> #[trigger] self.normals@[k] == fs[k / 3].normal
    }
}

fn is_space_byte(c: u8) -> (r: bool)
    ensures
        r == is_space(c),
{
    c == 32 || (9 <= c && c <= 13)
}

/// The token that follows position `i`.
fn next_token(b: &[u8], i: usize) -> (r: Span)
    requires
        i <= b.len(),
    ensures
        r == token_after(b@, i as int),
        i <= r.start <= r.end <= b.len(),
{
    let mut s = i;
    while s < b.len() && is_space_byte(b[s])
        invariant
            i <= s <= b.len(),
            skip_space(b@, s as int) == skip_space(b@, i as int),
        decreases b.len() - s,
    {
        s += 1;
    }
    let mut e = s;
    while e < b.len() && !is_space_byte(b[e])
        invariant
            s <= e <= b.len(),
            s == skip_space(b@, i as int),
            word_end(b@, e as int) == word_end(b@, s as int),
        decreases b.len() - e,
    {
        e += 1;
    }
    Span { start: s, end: e }
}

/// The spelling of a keyword.
fn spelled(k: Keyword) -> (r: Vec<u8>)
    ensures
        r@ == spelling(k),
{
    let r = match k {
        Keyword::Solid => vec![115u8, 111, 108, 105, 100],
        Keyword::Facet => vec![102u8, 97, 99, 101, 116],
        Keyword::Normal => vec![110u8, 111, 114, 109, 97, 108],
        Keyword::Outer => vec![111u8, 117, 116, 101, 114],
        Keyword::Loop => vec![108u8, 111, 111, 112],
        Keyword::Vertex => vec![118u8, 101, 114, 116, 101, 120],
        Keyword::EndLoop => vec![101u8, 110, 100, 108, 111, 111, 112],
        Keyword::EndFacet => vec![101u8, 110, 100, 102, 97, 99, 101, 116],
        Keyword::EndSolid => vec![101u8, 110, 100, 115, 111, 108, 105, 100],
    };
    assert(r@ =~= spelling(k));
    r
}

/// Whether the token `t` is the keyword `k`.
fn token_is(b: &[u8], t: Span, k: Keyword) -> (r: bool)
    requires
        t.start <= t.end <= b.len(),
    ensures
        r == (text_of(b@, t) == spelling(k)),
{
    let w = spelled(k);
    if t.end - t.start != w.len() {
        proof {
            assert(text_of(b@, t).len() != spelling(k).len());
        }
        return false;
    }
    let mut m: usize = 0;
    while m < w.len()
        invariant
            m <= w@.len(),
            w@ == spelling(k),
            t.end - t.start == w@.len(),
            t.end <= b@.len(),
            forall|q: int| 0 <= q < m ==> b@[t.start + q] == w@[q],
        decreases w@.len() - m,
    {
        if b[t.start + m] != w[m] {
            proof {
                assert(text_of(b@, t)[m as int] != spelling(k)[m as int]);
            }
            return false;
        }
        m += 1;
    }
    assert(text_of(b@, t) =~= spelling(k));
    true
}

fn expect_at(b: &[u8], i: usize, k: Keyword) -> (r: Option<usize>)
    requires
        i <= b.len(),
    ensures
        r == expect(b@, i, k),
        r matches Some(j) ==> i < j <= b.len(),
{
    let t = next_token(b, i);
    if token_is(b, t, k) {
        proof {
            assert(text_of(b@, t).len() == spelling(k).len());
        }
        Some(t.end)
    } else {
        None
    }
}

fn number_at(b: &[u8], i: usize) -> (r: Option<(Span, usize)>)
    requires
        i <= b.len(),
    ensures
        r == number(b@, i),
        r matches Some((_, j)) ==> i < j <= b.len(),
{
    let t = next_token(b, i);
    if t.start < t.end {
        Some((t, t.end))
    } else {
        None
    }
}

fn triple_at(b: &[u8], i: usize) -> (r: Option<(Vec3Text, usize)>)
    requires
        i <= b.len(),
    ensures
        r == triple(b@, i),
        r matches Some((_, j)) ==> i < j <= b.len(),
{
    let (x, i1) = match number_at(b, i) {
        None => return None,
        Some(p) => p,
    };
    let (y, i2) = match number_at(b, i1) {
        None => return None,
        Some(p) => p,
    };
    let (z, i3) = match number_at(b, i2) {
        None => return None,
        Some(p) => p,
    };
    Some((Vec3Text { x, y, z }, i3))
}

fn vertex_line_at(b: &[u8], i: usize) -> (r: Option<(Vec3Text, usize)>)
    requires
        i <= b.len(),
    ensures
        r == vertex_line(b@, i),
        r matches Some((_, j)) ==> i < j <= b.len(),
{
    match expect_at(b, i, Keyword::Vertex) {
        None => None,
        Some(j) => triple_at(b, j),
    }
}

fn facet_at(b: &[u8], i: usize) -> (r: Option<(FacetText, usize)>)
    requires
        i <= b.len(),
    ensures
        r == facet(b@, i),
        r matches Some((_, j)) ==> i < j <= b.len(),
{
    let i1 = match expect_at(b, i, Keyword::Facet) {
        None => return None,
        Some(j) => j,
    };
    let i2 = match expect_at(b, i1, Keyword::Normal) {
        None => return None,
        Some(j) => j,
    };
    let (normal, i3) = match triple_at(b, i2) {
        None => return None,
        Some(p) => p,
    };
    let i4 = match expect_at(b, i3, Keyword::Outer) {
        None => return None,
        Some(j) => j,
    };
    let i5 = match expect_at(b, i4, Keyword::Loop) {
        None => return None,
        Some(j) => j,
    };
    let (v0, j1) = match vertex_line_at(b, i5) {
        None => return None,
        Some(p) => p,
    };
    let (v1, j2) = match vertex_line_at(b, j1) {
        None => return None,
        Some(p) => p,
    };
    let (v2, i6) = match vertex_line_at(b, j2) {
        None => return None,
        Some(p) => p,
    };
    let i7 = match expect_at(b, i6, Keyword::EndLoop) {
        None => return None,
        Some(j) => j,
    };
    let i8 = match expect_at(b, i7, Keyword::EndFacet) {
        None => return None,
        Some(j) => j,
    };
    Some((FacetText { normal, v0, v1, v2 }, i8))
}

/// Skips the solid's name from position `i`.
fn skip_name(b: &[u8], i: usize) -> (r: usize)
    requires
        i <= b.len(),
    ensures
        r == name_end(b@, i),
        r <= b.len(),
{
    let mut j = i;
    loop
        invariant
            j <= b.len(),
            name_end(b@, j) == name_end(b@, i),
        decreases b.len() - j,
    {
        let t = next_token(b, j);
        if t.start >= t.end || token_is(b, t, Keyword::Facet) || token_is(b, t, Keyword::EndSolid) {
            return j;
        }
        j = t.end;
    }
}

impl TextMesh {
    /// Reads an ASCII STL solid. Succeeds exactly when the text follows the
    /// grammar up to `endsolid`; the mesh then holds its facets in order.
    pub fn from_ascii_stl(b: &[u8]) -> (r: Result<TextMesh, AsciiError>)
        ensures
            r is Ok <==> ascii_solid(b@) is Some,
            r matches Ok(m) ==> m.soup_of(ascii_solid(b@)->Some_0),
            r matches Err(e) ==> e == AsciiError::Malformed,
    {
        let start = match expect_at(b, 0, Keyword::Solid) {
            None => return Err(AsciiError::Malformed),
            Some(j) => j,
        };
        let first = skip_name(b, start);
        let mut j = first;
        let ghost mut seen: Seq<FacetText> = Seq::empty();
        let mut vertices: Vec<Vec3Text> = Vec::new();
        let mut normals: Vec<Vec3Text> = Vec::new();
        loop
            invariant
                j <= b.len(),
                first == name_end(b@, start),
                ascii_solid(b@) == (match facets(b@, j) {
                    None => None,
                    Some((fs, _)) => Some(seen + fs),
                }),
                (TextMesh { vertices, normals }).soup_of(seen),
            decreases b.len() - j,
        {
            let t = next_token(b, j);
            if token_is(b, t, Keyword::EndSolid) {
                proof {
                    assert(seen + Seq::<FacetText>::empty() =~= seen);
                }
                return Ok(TextMesh { vertices, normals });
            }
            let (f, next) = match facet_at(b, j) {
                None => return Err(AsciiError::Malformed),
                Some(p) => p,
            };
            let n = vertices.len();
            vertices.push(f.v0);
            vertices.push(f.v1);
            vertices.push(f.v2);
            normals.push(f.normal);
            normals.push(f.normal);
            normals.push(f.normal);
            proof {
                let s2 = seen.push(f);
                assert forall|k: int| 0 <= k < vertices@.len() implies #[trigger] vertices@[k]
                    == corner(s2[k / 3], k % 3) && normals@[k] == s2[k / 3].normal by {
                    if k >= n {
                        vstd::arithmetic::div_mod::lemma_fundamental_div_mod_converse(
                            k,
                            3,
                            seen.len() as int,
                            k - n,
                        );
                    }
                }
                assert forall|k: int| 0 <= k < normals@.len() implies #[trigger] normals@[k]
                    == s2[k / 3].normal by {
                    assert(vertices@[k] == corner(s2[k / 3], k % 3));
                }
                match facets(b@, next) {
                    None => {},
                    Some((fs, _)) => {
                        assert(seen + (seq![f] + fs) =~= s2 + fs);
                    },
                }
                seen = s2;
            }
            j = next;
        }
    }
}

} // verus!
