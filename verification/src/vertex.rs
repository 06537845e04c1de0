//! Vertices, and the quad that every effect is drawn on.

use vstd::prelude::*;
use crate::layout::{cast_words, is_memory_image};
use crate::scalar::{Scalar, MINUS_ONE_BITS, ONE_BITS};

verus! {

/// A point of the plane.
#[derive(Clone, Copy, Debug)]
pub struct Vertex2D {
    pub pos: [Scalar; 2],
}

/// A point of space.
#[derive(Clone, Copy, Debug)]
pub struct Vertex3D {
    pub pos: [Scalar; 3],
}

/// Words that one [`Vertex2D`] takes in a vertex buffer.
pub const VERTEX_2D_WORDS: usize = 2;

/// Bytes from one [`Vertex2D`] to the next in a vertex buffer.
pub const VERTEX_2D_STRIDE: u64 = 8;

/// Vertices of the quad: two triangles.
pub const QUAD_VERTICES: u32 = 6;

impl Vertex2D {
    /// The point `(x, y)`.
    pub fn new(x: Scalar, y: Scalar) -> (v: Vertex2D)
        ensures
            v.pos@ == seq![x, y],
    {
        Vertex2D { pos: [x, y] }
    }
}

impl Vertex3D {
    /// The point `(x, y, z)`.
    pub fn new(x: Scalar, y: Scalar, z: Scalar) -> (v: Vertex3D)
        ensures
            v.pos@ == seq![x, y, z],
    {
        Vertex3D { pos: [x, y, z] }
    }
}

/// The coordinates of `vertices` as one run of words: `x` then `y` of the
/// first vertex, then of the second, and so on.
pub open spec fn vertex_words(vertices: Seq<Vertex2D>) -> Seq<u32> {
    Seq::new(2 * vertices.len(), |i: int| vertices[i / 2].pos[i % 2].bits)
}

/// The bit pattern of `-1.0` for a negative `sign`, of `1.0` otherwise.
pub open spec fn unit_bits(sign: int) -> u32 {
    if sign < 0 {
        MINUS_ONE_BITS
    } else {
        ONE_BITS
    }
}

/// The corners of the quad by their signs, in drawing order: the triangle
/// bottom left, top left, top right, then the triangle top right, bottom
/// right, bottom left.
pub open spec fn quad_corners() -> Seq<(int, int)> {
    seq![(-1, -1), (-1, 1), (1, 1), (1, 1), (1, -1), (-1, -1)]
}

/// `vertices` are the corners of the square from `-1.0` to `1.0` in both
/// directions, in the order of [`quad_corners`].
pub open spec fn is_quad(vertices: Seq<Vertex2D>) -> bool {
    &&& vertices.len() == QUAD_VERTICES
    &&& forall|i: int|
        0 <= i < 6 ==> (#[trigger] vertices[i]).pos@ == seq![
            Scalar { bits: unit_bits(quad_corners()[i].0) },
            Scalar { bits: unit_bits(quad_corners()[i].1) },
        ]
}

/// The quad as the words of its vertex buffer.
pub open spec fn quad_words() -> Seq<u32> {
    Seq::new(
        12,
        |i: int|
            if i % 2 == 0 {
                unit_bits(quad_corners()[i / 2].0)
            } else {
                unit_bits(quad_corners()[i / 2].1)
            },
    )
}

/// Twice the signed area of the triangle `a`, `b`, `c`, with `y` pointing
/// up: negative when the corners run clockwise.
pub open spec fn doubled_area(a: (int, int), b: (int, int), c: (int, int)) -> int {
    (b.0 - a.0) * (c.1 - a.1) - (c.0 - a.0) * (b.1 - a.1)
}

/// The six vertices of the quad that covers the whole view.
pub fn quad() -> (vertices: Vec<Vertex2D>)
    ensures
        is_quad(vertices@),
        vertex_words(vertices@) == quad_words(),
{
    let lo = Scalar::minus_one();
    let hi = Scalar::one();
    let vertices = vec![
        Vertex2D::new(lo, lo),
        Vertex2D::new(lo, hi),
        Vertex2D::new(hi, hi),
        Vertex2D::new(hi, hi),
        Vertex2D::new(hi, lo),
        Vertex2D::new(lo, lo),
    ];
    assert(vertex_words(vertices@) =~= quad_words());
    vertices
}

/// The contents of a vertex buffer that holds `vertices`.
pub fn vertex_bytes(vertices: &[Vertex2D]) -> (bytes: Vec<u8>)
    ensures
        is_memory_image(vertex_words(vertices@), bytes@),
        bytes@.len() == VERTEX_2D_STRIDE * vertices@.len(),
{
    let mut words: Vec<u32> = Vec::new();
    let mut i: usize = 0;
    while i < vertices.len()
        invariant
            i <= vertices@.len(),
            words@ == vertex_words(vertices@.take(i as int)),
        decreases vertices@.len() - i,
    {
        let v = vertices[i];
        words.push(v.pos[0].bits);
        words.push(v.pos[1].bits);
        proof {
            let prev = vertices@.take(i as int);
            let next = vertices@.take(i + 1);
            assert forall|k: int| 0 <= k < 2 * (i + 1) implies #[trigger] words@[k]
                == vertex_words(next)[k] by {
                if k < 2 * i {
                    assert(vertex_words(prev)[k] == prev[k / 2].pos[k % 2].bits);
                    assert(prev[k / 2] == next[k / 2]);
                }
            }
            assert(words@ =~= vertex_words(next));
        }
        i += 1;
    }
    proof {
        assert(vertices@.take(i as int) =~= vertices@);
    }
    cast_words(words.as_slice())
}

/// Both triangles of the quad run clockwise, and together they have the
/// area of the square from `-1` to `1`: drawn with clockwise front faces,
/// the quad shows its front over the whole view.
pub proof fn lemma_quad_is_clockwise()
    ensures
        doubled_area(quad_corners()[0], quad_corners()[1], quad_corners()[2]) < 0,
        doubled_area(quad_corners()[3], quad_corners()[4], quad_corners()[5]) < 0,
        doubled_area(quad_corners()[0], quad_corners()[1], quad_corners()[2]) + doubled_area(
            quad_corners()[3],
            quad_corners()[4],
            quad_corners()[5],
        ) == -2 * (2 * 2),
{
    let c = quad_corners();
    assert(c[0] == (-1int, -1int) && c[1] == (-1int, 1int) && c[2] == (1int, 1int));
    assert(c[3] == (1int, 1int) && c[4] == (1int, -1int) && c[5] == (-1int, -1int));
    assert(doubled_area(c[0], c[1], c[2]) == 0 * 2 - 2 * 2);
    assert(doubled_area(c[3], c[4], c[5]) == 0 * (-2) - (-2) * (-2));
}

} // verus!
