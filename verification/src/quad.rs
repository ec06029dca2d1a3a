//! The quad that every pass draws: four corners and two triangles.

use vstd::prelude::*;

verus! {

/// Number of corners of a quad.
pub const VERTEX_COUNT: usize = 4;

/// The corners of the two triangles of a quad, three indices each.
pub const INDICES: [u16; 6] = [2, 1, 0, 1, 2, 3];

/// The six indices as a sequence.
pub open spec fn indices() -> Seq<u16> {
    seq![2u16, 1u16, 0u16, 1u16, 2u16, 3u16]
}

/// The corner that vertex `vertex` stands at: whether it lies on the far
/// side along the first axis, and along the second. It is the vertex's
/// texture coordinate as well: 0 on the near side and 1 on the far side.
pub open spec fn corner(vertex: int) -> (bool, bool) {
    (vertex / 2 == 1, vertex % 2 == 1)
}

/// Computes [`corner`].
pub fn quad_corner(vertex: usize) -> (r: (bool, bool))
    requires
        vertex < VERTEX_COUNT,
    ensures
        r == corner(vertex as int),
{
    (vertex / 2 == 1, vertex % 2 == 1)
}

/// The indices of a quad, in the order in which they are drawn.
pub fn quad_indices() -> (r: Vec<u16>)
    ensures
        r@ == indices(),
{
    let mut r: Vec<u16> = Vec::new();
    r.push(2);
    r.push(1);
    r.push(0);
    r.push(1);
    r.push(2);
    r.push(3);
    assert(r@ =~= indices());
    r
}

/// The two triangles cover the quad: every index names a corner, each
/// corner is named, no two vertices stand at one corner, and the triangles
/// share the diagonal between the vertices 1 and 2.
pub proof fn lemma_triangles_cover_quad()
    ensures
        INDICES@ == indices(),
        forall|i: int| 0 <= i < indices().len() ==> (#[trigger] indices()[i]) < VERTEX_COUNT,
        forall|v: u16| v < VERTEX_COUNT ==> indices().contains(v),
        forall|v: int, w: int|
            0 <= v < VERTEX_COUNT && 0 <= w < VERTEX_COUNT && corner(v) == corner(w) ==> v == w,
        indices().subrange(0, 3).contains(1) && indices().subrange(0, 3).contains(2),
        indices().subrange(3, 6).contains(1) && indices().subrange(3, 6).contains(2),
{
    assert(INDICES@ =~= indices());
    assert(indices()[0] == 2 && indices()[1] == 1 && indices()[2] == 0 && indices()[5] == 3);
    assert(indices().subrange(0, 3)[1] == 1 && indices().subrange(0, 3)[0] == 2);
    assert(indices().subrange(3, 6)[0] == 1 && indices().subrange(3, 6)[1] == 2);
}

} // verus!
