use vstd::prelude::*;

verus! {

/// An exact fraction `num / den`, the form in which a coordinate is kept
/// until it is handed to the GPU as a 32-bit float.
#[derive(Clone, Copy, Debug, PartialEq, Eq, Structural)]
pub struct Frac {
    pub num: i32,
    pub den: i32,
}

/// A point in two dimensions, as a pair of exact fractions.
#[derive(Clone, Copy, Debug, PartialEq, Eq, Structural)]
pub struct Coord {
    pub x: Frac,
    pub y: Frac,
}

/// One corner of the quad: a position in unit space and a texture coordinate.
#[derive(Clone, Copy, Debug, PartialEq, Eq, Structural)]
pub struct Vertex2D {
    pub pos: Coord,
    pub tex_coords: Coord,
}

/// The four components of a vertex, in upload order.
pub open spec fn vertex_components(v: Vertex2D) -> Seq<Frac> {
    seq![v.pos.x, v.pos.y, v.tex_coords.x, v.tex_coords.y]
}

/// The components of a run of vertices, each vertex's four in upload order.
pub open spec fn packed(vs: Seq<Vertex2D>) -> Seq<Frac>
    decreases vs.len(),
{
    if vs.len() == 0 {
        Seq::empty()
    } else {
        packed(vs.drop_last()) + vertex_components(vs.last())
    }
}

/// The texture-space rectangle that a draw samples: the four edges as
/// fractions of the texture's size.
#[derive(Clone, Copy, Debug, PartialEq, Eq, Structural)]
pub struct UvRect {
    pub left: Frac,
    pub top: Frac,
    pub right: Frac,
    pub bottom: Frac,
}

pub open spec fn frac(num: i32, den: i32) -> Frac {
    Frac { num, den }
}

pub open spec fn point(x: Frac, y: Frac) -> Coord {
    Coord { x, y }
}

/// The quad's corners in their fixed order (top-left, bottom-left,
/// top-right, bottom-right), each position paired with its texture
/// coordinate from `uv`.
pub open spec fn quad_seq(uv: UvRect) -> Seq<Vertex2D> {
    seq![
        Vertex2D { pos: point(frac(0, 1), frac(1, 1)), tex_coords: point(uv.left, uv.top) },
        Vertex2D { pos: point(frac(0, 1), frac(0, 1)), tex_coords: point(uv.left, uv.bottom) },
        Vertex2D { pos: point(frac(1, 1), frac(1, 1)), tex_coords: point(uv.right, uv.top) },
        Vertex2D { pos: point(frac(1, 1), frac(0, 1)), tex_coords: point(uv.right, uv.bottom) },
    ]
}

/// The texture coordinates that the quad carries when it is first built:
/// each corner samples the texture at its own unit position.
pub open spec fn unit_uv() -> UvRect {
    UvRect { left: frac(0, 1), top: frac(1, 1), right: frac(1, 1), bottom: frac(0, 1) }
}

/// The index list that draws the quad as two triangles.
pub open spec fn quad_index_seq() -> Seq<u16> {
    seq![0u16, 1u16, 2u16, 2u16, 1u16, 3u16]
}

/// Builds the quad with the given texture coordinates.
pub fn quad_with_uv(uv: UvRect) -> (r: [Vertex2D; 4])
    ensures
        r@ == quad_seq(uv),
{
    let zero = Frac { num: 0, den: 1 };
    let one = Frac { num: 1, den: 1 };
    let r = [
        Vertex2D { pos: Coord { x: zero, y: one }, tex_coords: Coord { x: uv.left, y: uv.top } },
        Vertex2D { pos: Coord { x: zero, y: zero }, tex_coords: Coord { x: uv.left, y: uv.bottom } },
        Vertex2D { pos: Coord { x: one, y: one }, tex_coords: Coord { x: uv.right, y: uv.top } },
        Vertex2D { pos: Coord { x: one, y: zero }, tex_coords: Coord { x: uv.right, y: uv.bottom } },
    ];
    assert(r@ =~= quad_seq(uv));
    r
}

/// The quad's index list: corners 0, 1, 2 and then 2, 1, 3.
pub fn quad_indices() -> (r: [u16; 6])
    ensures
        r@ == quad_index_seq(),
{
    let r: [u16; 6] = [0, 1, 2, 2, 1, 3];
    assert(r@ =~= quad_index_seq());
    r
}

/// Packs vertices into the flat component list that the vertex buffer holds.
pub trait AsF32Slice {
    spec fn vertices_spec(&self) -> Seq<Vertex2D>;

    fn as_f32_slice(&self) -> (r: Vec<Frac>)
        ensures
            r@ == packed(self.vertices_spec()),
    ;
}

impl AsF32Slice for [Vertex2D] {
    open spec fn vertices_spec(&self) -> Seq<Vertex2D> {
        self@
    }

    fn as_f32_slice(&self) -> (r: Vec<Frac>) {
        let mut out: Vec<Frac> = Vec::new();
        let mut i: usize = 0;
        while i < self.len()
            invariant
                i <= self@.len(),
                out@ == packed(self@.subrange(0, i as int)),
            decreases self@.len() - i,
        {
            let v = self[i];
            out.push(v.pos.x);
            out.push(v.pos.y);
            out.push(v.tex_coords.x);
            out.push(v.tex_coords.y);
            proof {
                assert(self@.subrange(0, i + 1).drop_last() =~= self@.subrange(0, i as int));
            }
            i = i + 1;
        }
        proof {
            assert(self@.subrange(0, self@.len() as int) =~= self@);
        }
        out
    }
}

} // verus!
