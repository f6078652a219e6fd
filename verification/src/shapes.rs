//! The two fixed shapes of the scene, in exact units: positions in
//! quarters of a length unit, colours and texture coordinates in whole
//! units.

use vstd::prelude::*;

verus! {

/// Position steps in one length unit.
pub const QUARTERS_PER_UNIT: i8 = 4;

/// A corner with a colour.
#[derive(Clone, Copy, Debug, PartialEq, Eq, Structural)]
pub struct ColoredVertex {
    /// Position, in quarters of a unit.
    pub x: i8,
    pub y: i8,
    /// Colour channels, each 0 or 1.
    pub red: u8,
    pub green: u8,
    pub blue: u8,
}

/// A corner with a place in the texture.
#[derive(Clone, Copy, Debug, PartialEq, Eq, Structural)]
pub struct TexturedVertex {
    /// Position, in quarters of a unit.
    pub x: i8,
    pub y: i8,
    /// Texture coordinates, each 0 or 1.
    pub u: u8,
    pub v: u8,
}

/// Twice the signed area of the triangle `a`, `b`, `c`, in squared
/// quarters: positive when the corners run counter-clockwise.
pub open spec fn spec_doubled_area(a: (int, int), b: (int, int), c: (int, int)) -> int {
    (b.0 - a.0) * (c.1 - a.1) - (c.0 - a.0) * (b.1 - a.1)
}

/// Where a corner of the quad lies, in quarters of a unit.
pub open spec fn spec_place(corner: TexturedVertex) -> (int, int) {
    (corner.x as int, corner.y as int)
}

/// The coloured triangle: a red, a green and a blue corner.
pub open spec fn spec_triangle() -> Seq<ColoredVertex> {
    seq![
        ColoredVertex { x: (-2) as i8, y: (-2) as i8, red: 1, green: 0, blue: 0 },
        ColoredVertex { x: 0, y: 2, red: 0, green: 1, blue: 0 },
        ColoredVertex { x: 2, y: (-1) as i8, red: 0, green: 0, blue: 1 },
    ]
}

/// The textured quad: the unit square about the origin as two triangles,
/// six corners in all.
pub open spec fn spec_quad() -> Seq<TexturedVertex> {
    seq![
        TexturedVertex { x: (-2) as i8, y: (-2) as i8, u: 0, v: 0 },
        TexturedVertex { x: 2, y: (-2) as i8, u: 1, v: 0 },
        TexturedVertex { x: 2, y: 2, u: 1, v: 1 },
        TexturedVertex { x: 2, y: 2, u: 1, v: 1 },
        TexturedVertex { x: (-2) as i8, y: 2, u: 0, v: 1 },
        TexturedVertex { x: (-2) as i8, y: (-2) as i8, u: 0, v: 0 },
    ]
}

/// The corners of the coloured triangle.
pub fn triangle_vertices() -> (corners: Vec<ColoredVertex>)
    ensures
        corners@ == spec_triangle(),
{
    let mut corners: Vec<ColoredVertex> = Vec::new();
    corners.push(ColoredVertex { x: -2, y: -2, red: 1, green: 0, blue: 0 });
    corners.push(ColoredVertex { x: 0, y: 2, red: 0, green: 1, blue: 0 });
    corners.push(ColoredVertex { x: 2, y: -1, red: 0, green: 0, blue: 1 });
    assert(corners@ =~= spec_triangle());
    corners
}

/// The corners of the textured quad, triangle by triangle.
pub fn quad_vertices() -> (corners: Vec<TexturedVertex>)
    ensures
        corners@ == spec_quad(),
{
    let mut corners: Vec<TexturedVertex> = Vec::new();
    corners.push(TexturedVertex { x: -2, y: -2, u: 0, v: 0 });
    corners.push(TexturedVertex { x: 2, y: -2, u: 1, v: 0 });
    corners.push(TexturedVertex { x: 2, y: 2, u: 1, v: 1 });
    corners.push(TexturedVertex { x: 2, y: 2, u: 1, v: 1 });
    corners.push(TexturedVertex { x: -2, y: 2, u: 0, v: 1 });
    corners.push(TexturedVertex { x: -2, y: -2, u: 0, v: 0 });
    assert(corners@ =~= spec_quad());
    corners
}

/// The texture lies on the quad without stretch or mirror: at every
/// corner the texture coordinate is the position moved by half a unit.
pub proof fn lemma_quad_texture_follows_position(i: int)
    requires
        0 <= i < 6,
    ensures
        QUARTERS_PER_UNIT * spec_quad()[i].u == spec_quad()[i].x + 2,
        QUARTERS_PER_UNIT * spec_quad()[i].v == spec_quad()[i].y + 2,
{
}

/// The quad's two triangles run the same way round, meet along one
/// diagonal and have half the unit square each.
pub proof fn lemma_quad_covers_unit_square()
    ensures
        spec_doubled_area(
            spec_place(spec_quad()[0]),
            spec_place(spec_quad()[1]),
            spec_place(spec_quad()[2]),
        ) == QUARTERS_PER_UNIT * QUARTERS_PER_UNIT,
        spec_doubled_area(
            spec_place(spec_quad()[3]),
            spec_place(spec_quad()[4]),
            spec_place(spec_quad()[5]),
        ) == QUARTERS_PER_UNIT * QUARTERS_PER_UNIT,
        spec_quad()[3] == spec_quad()[2],
        spec_quad()[5] == spec_quad()[0],
{
    let q = spec_quad();
    assert(spec_place(q[0]) == (-2int, -2int));
    assert(spec_place(q[1]) == (2int, -2int));
    assert(spec_place(q[2]) == (2int, 2int));
    assert(spec_place(q[4]) == (-2int, 2int));
    assert(QUARTERS_PER_UNIT * QUARTERS_PER_UNIT == 16) by (nonlinear_arith)
        requires
            QUARTERS_PER_UNIT == 4,
    ;
    assert(spec_doubled_area((-2int, -2int), (2int, -2int), (2int, 2int)) == 16) by (nonlinear_arith);
    assert(spec_doubled_area((2int, 2int), (-2int, 2int), (-2int, -2int)) == 16) by (nonlinear_arith);
}

/// The coloured triangle is a true triangle, and each corner has one
/// primary colour of its own.
pub proof fn lemma_triangle_is_proper()
    ensures
        spec_doubled_area(
            (spec_triangle()[0].x as int, spec_triangle()[0].y as int),
            (spec_triangle()[1].x as int, spec_triangle()[1].y as int),
            (spec_triangle()[2].x as int, spec_triangle()[2].y as int),
        ) != 0,
        forall|i: int|
            0 <= i < 3 ==> (#[trigger] spec_triangle()[i]).red + spec_triangle()[i].green
                + spec_triangle()[i].blue == 1,
        spec_triangle()[0].red == 1,
        spec_triangle()[1].green == 1,
        spec_triangle()[2].blue == 1,
{
    let t = spec_triangle();
    assert((t[0].x as int, t[0].y as int) == (-2int, -2int));
    assert((t[1].x as int, t[1].y as int) == (0int, 2int));
    assert((t[2].x as int, t[2].y as int) == (2int, -1int));
    assert(spec_doubled_area((-2int, -2int), (0int, 2int), (2int, -1int)) == -14) by (nonlinear_arith);
}

} // verus!
