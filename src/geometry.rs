use vstd::prelude::*;

verus! {

/// Bit pattern of the `f32` value 1.0; the value 0.0 has the pattern 0.
pub const F32_ONE: u32 = 0x3f80_0000;

/// Whether the `f32` bit pattern `bits` is the number `v`, for the two values
/// the static geometry uses.
pub open spec fn f32_bits_of(v: int, bits: u32) -> bool {
    (v == 0 && bits == 0) || (v == 1 && bits == F32_ONE)
}

/// Bit pattern of 0.0 or 1.0.
pub open spec fn unit_bits(v: int) -> u32 {
    if v == 0 {
        0
    } else {
        F32_ONE
    }
}

/// Corner `i` of the unit quad, counter-clockwise from the origin.
pub open spec fn quad_corner(i: int) -> (int, int) {
    if i == 0 {
        (0, 0)
    } else if i == 1 {
        (1, 0)
    } else if i == 2 {
        (1, 1)
    } else {
        (0, 1)
    }
}

/// The quad's vertices as positions only: `x, y` per vertex.
pub open spec fn pos_vertex_words() -> Seq<u32> {
    Seq::new(
        8,
        |j: int|
            if j % 2 == 0 {
                unit_bits(quad_corner(j / 2).0)
            } else {
                unit_bits(quad_corner(j / 2).1)
            },
    )
}

/// The quad's vertices with an opaque white color: `x, y, r, g, b, a` per vertex.
pub open spec fn pos_color_vertex_words() -> Seq<u32> {
    Seq::new(
        24,
        |j: int|
            if j % 6 == 0 {
                unit_bits(quad_corner(j / 6).0)
            } else if j % 6 == 1 {
                unit_bits(quad_corner(j / 6).1)
            } else {
                F32_ONE
            },
    )
}

/// The quad's vertices for filter passes, each texture coordinate equal to its
/// position: `x, y, u, v` per vertex.
pub open spec fn filter_vertex_words() -> Seq<u32> {
    Seq::new(
        16,
        |j: int|
            if j % 2 == 0 {
                unit_bits(quad_corner(j / 4).0)
            } else {
                unit_bits(quad_corner(j / 4).1)
            },
    )
}

/// Two triangles that cover the quad.
pub open spec fn quad_indices() -> Seq<u32> {
    seq![0u32, 1, 2, 0, 2, 3]
}

/// The 4x4 identity matrix, row by row.
pub open spec fn identity_matrix_words() -> Seq<u32> {
    Seq::new(16, |j: int| if j / 4 == j % 4 { F32_ONE } else { 0 })
}

/// The position-only vertex data of the quad.
pub fn pos_vertices() -> (r: Vec<u32>)
    ensures
        r@ == pos_vertex_words(),
{
    let r = vec![0, 0, F32_ONE, 0, F32_ONE, F32_ONE, 0, F32_ONE];
    assert(r@ =~= pos_vertex_words());
    r
}

/// The position-and-color vertex data of the quad.
pub fn pos_color_vertices() -> (r: Vec<u32>)
    ensures
        r@ == pos_color_vertex_words(),
{
    let w = F32_ONE;
    let r = vec![
        0, 0, w, w, w, w,
        w, 0, w, w, w, w,
        w, w, w, w, w, w,
        0, w, w, w, w, w,
    ];
    assert(r@ =~= pos_color_vertex_words());
    r
}

/// The vertex data of the quad for filter passes.
pub fn filter_vertices() -> (r: Vec<u32>)
    ensures
        r@ == filter_vertex_words(),
{
    let w = F32_ONE;
    let r = vec![0, 0, 0, 0, w, 0, w, 0, w, w, w, w, 0, w, 0, w];
    assert(r@ =~= filter_vertex_words());
    r
}

/// The index data of the quad's two triangles.
pub fn indices() -> (r: Vec<u32>)
    ensures
        r@ == quad_indices(),
{
    let r = vec![0, 1, 2, 0, 2, 3];
    assert(r@ =~= quad_indices());
    r
}

/// The data of the identity texture transform.
pub fn identity_matrix() -> (r: Vec<u32>)
    ensures
        r@ == identity_matrix_words(),
{
    let w = F32_ONE;
    let r = vec![w, 0, 0, 0, 0, w, 0, 0, 0, 0, w, 0, 0, 0, 0, w];
    assert(r@ =~= identity_matrix_words());
    r
}

/// Twice the signed area of the triangle `a, b, c`: positive when its corners
/// run counter-clockwise.
pub open spec fn twice_signed_area(a: (int, int), b: (int, int), c: (int, int)) -> int {
    (b.0 - a.0) * (c.1 - a.1) - (b.1 - a.1) * (c.0 - a.0)
}

/// Triangle `t` of the index buffer, as quad corners.
pub open spec fn triangle(t: int) -> ((int, int), (int, int), (int, int)) {
    (
        quad_corner(quad_indices()[3 * t] as int),
        quad_corner(quad_indices()[3 * t + 1] as int),
        quad_corner(quad_indices()[3 * t + 2] as int),
    )
}

/// The quad's geometry: six indices into four vertices make two
/// counter-clockwise triangles of area one half each, which share the diagonal
/// from (0,0) to (1,1) and so cover the unit square; and every vertex layout
/// places vertex `i` at the same corner, (0,0), (1,0), (1,1), (0,1) in turn.
pub proof fn lemma_quad_geometry()
    ensures
        quad_indices().len() == 6,
        forall|k: int| 0 <= k < 6 ==> #[trigger] quad_indices()[k] < 4,
        forall|t: int|
            0 <= t < 2 ==> twice_signed_area(triangle(t).0, triangle(t).1, triangle(t).2) == 1,
        triangle(0).0 == (0int, 0int) && triangle(0).2 == (1int, 1int),
        triangle(1).0 == (0int, 0int) && triangle(1).1 == (1int, 1int),
        triangle(0).1 == (1int, 0int) && triangle(1).2 == (0int, 1int),
        quad_corner(0) == (0int, 0int) && quad_corner(1) == (1int, 0int),
        quad_corner(2) == (1int, 1int) && quad_corner(3) == (0int, 1int),
        forall|i: int|
            0 <= i < 4 ==> {
                &&& f32_bits_of(quad_corner(i).0, #[trigger] pos_vertex_words()[2 * i])
                &&& f32_bits_of(quad_corner(i).1, pos_vertex_words()[2 * i + 1])
                &&& pos_color_vertex_words()[6 * i] == pos_vertex_words()[2 * i]
                &&& pos_color_vertex_words()[6 * i + 1] == pos_vertex_words()[2 * i + 1]
                &&& filter_vertex_words()[4 * i] == pos_vertex_words()[2 * i]
                &&& filter_vertex_words()[4 * i + 1] == pos_vertex_words()[2 * i + 1]
            },
{
    assert(quad_indices()[0] == 0 && quad_indices()[1] == 1 && quad_indices()[2] == 2);
    assert(quad_indices()[3] == 0 && quad_indices()[4] == 2 && quad_indices()[5] == 3);
    assert(triangle(0) == ((0int, 0int), (1int, 0int), (1int, 1int)));
    assert(triangle(1) == ((0int, 0int), (1int, 1int), (0int, 1int)));
    assert forall|t: int|
        0 <= t < 2 implies twice_signed_area(triangle(t).0, triangle(t).1, triangle(t).2) == 1 by {
        if t == 0 {
            assert(twice_signed_area((0, 0), (1, 0), (1, 1)) == 1) by (nonlinear_arith);
        } else {
            assert(twice_signed_area((0, 0), (1, 1), (0, 1)) == 1) by (nonlinear_arith);
        }
    }
    assert forall|i: int|
        0 <= i < 4 implies {
            &&& f32_bits_of(quad_corner(i).0, #[trigger] pos_vertex_words()[2 * i])
            &&& f32_bits_of(quad_corner(i).1, pos_vertex_words()[2 * i + 1])
            &&& pos_color_vertex_words()[6 * i] == pos_vertex_words()[2 * i]
            &&& pos_color_vertex_words()[6 * i + 1] == pos_vertex_words()[2 * i + 1]
            &&& filter_vertex_words()[4 * i] == pos_vertex_words()[2 * i]
            &&& filter_vertex_words()[4 * i + 1] == pos_vertex_words()[2 * i + 1]
        } by {
        assert((2 * i) / 2 == i && (2 * i + 1) / 2 == i);
        assert((6 * i) / 6 == i && (6 * i + 1) / 6 == i);
        assert((4 * i) / 4 == i && (4 * i + 1) / 4 == i);
    }
}

} // verus!
