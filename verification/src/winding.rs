//! Winding consistency of the triangle pattern, in its combinatorial form.
//!
//! The 204 indices of one finger's block form 68 triangles. Under a single
//! front-face convention, a triangle mesh is consistently wound exactly when
//! any edge shared by two triangles is traversed in the two opposite
//! directions — equivalently, when no directed edge occurs twice across the
//! whole list. That statement is proved here for the base cap, the tube and
//! the tip cap together. Whether the common convention is the clockwise or
//! the counter-clockwise one as seen from outside is a real-valued question
//! about signed areas of evaluated positions, and is settled by the
//! rendering host against its culling rule; the pattern itself guarantees
//! that the answer is the same for every triangle.

use vstd::prelude::*;
use vstd::arithmetic::div_mod::{
    lemma_div_is_ordered, lemma_div_pos_is_pos, lemma_fundamental_div_mod,
    lemma_fundamental_div_mod_converse, lemma_mod_bound,
};
use crate::topology::spec_index_offset;

verus! {

/// Vertex `v` of triangle `k` of the fixed per-finger index pattern.
pub open spec fn spec_tri_vertex(k: int, v: int) -> int {
    spec_index_offset(3 * k + v)
}

/// Directed edge `e` of triangle `k`: from its `e`-th vertex to the
/// cyclically next one.
pub open spec fn spec_tri_edge(k: int, e: int) -> (int, int) {
    (spec_tri_vertex(k, e), spec_tri_vertex(k, if e == 2 { 0 } else { e + 1 }))
}

/// The vertices of the eight cap triangles, read off the two cap tables.
proof fn lemma_cap_tris()
    ensures
        spec_tri_vertex(0, 0) == 5 && spec_tri_vertex(0, 1) == 4 && spec_tri_vertex(0, 2) == 6,
        spec_tri_vertex(1, 0) == 4 && spec_tri_vertex(1, 1) == 3 && spec_tri_vertex(1, 2) == 6,
        spec_tri_vertex(2, 0) == 2 && spec_tri_vertex(2, 1) == 1 && spec_tri_vertex(2, 2) == 0,
        spec_tri_vertex(63, 0) == 40 && spec_tri_vertex(63, 1) == 41 && spec_tri_vertex(63, 2) == 42,
        spec_tri_vertex(64, 0) == 39 && spec_tri_vertex(64, 1) == 40 && spec_tri_vertex(64, 2) == 42,
        spec_tri_vertex(65, 0) == 38 && spec_tri_vertex(65, 1) == 39 && spec_tri_vertex(65, 2) == 42,
        spec_tri_vertex(66, 0) == 36 && spec_tri_vertex(66, 1) == 37 && spec_tri_vertex(66, 2) == 42,
        spec_tri_vertex(67, 0) == 35 && spec_tri_vertex(67, 1) == 36 && spec_tri_vertex(67, 2) == 42,
{
}

/// The vertices of a tube triangle, in closed form: triangle `k` of the
/// tube is one of the two triangles of quad `q`, at transition `j` and
/// sample pair `r`, and its vertices sit at fixed offsets from the quad's
/// base vertex `7 * j + r`.
proof fn lemma_tube_tri(k: int)
    requires
        3 <= k < 63,
    ensures
        ({
            let h = k - 3;
            let q = h / 2;
            let j = q / 6;
            let r = q % 6;
            &&& 0 <= j <= 4
            &&& 0 <= r <= 5
            &&& q == 6 * j + r
            &&& h == 2 * q + h % 2
            &&& 0 <= h % 2 <= 1
            &&& (h % 2 == 0 ==> spec_tri_vertex(k, 0) == 7 * j + r + 1
                && spec_tri_vertex(k, 1) == 7 * j + r + 8
                && spec_tri_vertex(k, 2) == 7 * j + r)
            &&& (h % 2 == 1 ==> spec_tri_vertex(k, 0) == 7 * j + r + 8
                && spec_tri_vertex(k, 1) == 7 * j + r + 7
                && spec_tri_vertex(k, 2) == 7 * j + r)
        }),
{
    let h = k - 3;
    let q = h / 2;
    let par = h % 2;
    lemma_div_pos_is_pos(h, 2);
    lemma_div_is_ordered(h, 59, 2);
    lemma_mod_bound(h, 2);
    lemma_fundamental_div_mod(h, 2);
    let j = q / 6;
    let r = q % 6;
    lemma_div_pos_is_pos(q, 6);
    lemma_div_is_ordered(q, 29, 6);
    lemma_mod_bound(q, 6);
    lemma_fundamental_div_mod(q, 6);
    let m0 = 6 * q + 3 * par;
    lemma_fundamental_div_mod_converse(m0, 6, q, 3 * par);
    lemma_fundamental_div_mod_converse(m0 + 1, 6, q, 3 * par + 1);
    lemma_fundamental_div_mod_converse(m0 + 2, 6, q, 3 * par + 2);
    assert(3 * k + 0 == m0 + 9);
    assert(3 * k + 1 == m0 + 10);
    assert(3 * k + 2 == m0 + 11);
}

/// No two distinct directed edges of the tube coincide.
proof fn lemma_tube_edges_distinct(k1: int, e1: int, k2: int, e2: int)
    requires
        3 <= k1 < 63,
        3 <= k2 < 63,
        0 <= e1 < 3,
        0 <= e2 < 3,
        !(k1 == k2 && e1 == e2),
    ensures
        spec_tri_edge(k1, e1) != spec_tri_edge(k2, e2),
{
    lemma_tube_tri(k1);
    lemma_tube_tri(k2);
}

/// Across the 68 triangles of one finger's index pattern no directed edge
/// occurs twice. Hence whenever two triangles share an edge they traverse
/// it in opposite directions: the winding convention is uniform across the
/// base cap, the tube and the tip cap.
pub proof fn lemma_winding_consistent(k1: int, e1: int, k2: int, e2: int)
    requires
        0 <= k1 < 68,
        0 <= e1 < 3,
        0 <= k2 < 68,
        0 <= e2 < 3,
        !(k1 == k2 && e1 == e2),
    ensures
        spec_tri_edge(k1, e1) != spec_tri_edge(k2, e2),
{
    lemma_cap_tris();
    let tube1 = 3 <= k1 < 63;
    let tube2 = 3 <= k2 < 63;
    if tube1 && tube2 {
        lemma_tube_edges_distinct(k1, e1, k2, e2);
    } else if tube1 {
        lemma_tube_tri(k1);
    } else if tube2 {
        lemma_tube_tri(k2);
    }
}

/// Directed edge `e` of triangle `k` of the finger block at slot `s` of an
/// assembled mesh: the per-finger edge shifted by the block's base vertex.
pub open spec fn spec_mesh_tri_edge(s: int, k: int, e: int) -> (int, int) {
    (s * 43 + spec_tri_edge(k, e).0, s * 43 + spec_tri_edge(k, e).1)
}

/// Winding consistency of a whole assembled mesh: across all its finger
/// blocks no directed edge occurs twice. Within one block this is the
/// per-finger statement shifted; two different blocks draw their vertices
/// from disjoint index ranges and can share no edge at all.
pub proof fn lemma_mesh_winding_consistent(s1: int, k1: int, e1: int, s2: int, k2: int, e2: int)
    requires
        0 <= s1,
        0 <= s2,
        0 <= k1 < 68,
        0 <= e1 < 3,
        0 <= k2 < 68,
        0 <= e2 < 3,
        !(s1 == s2 && k1 == k2 && e1 == e2),
    ensures
        spec_mesh_tri_edge(s1, k1, e1) != spec_mesh_tri_edge(s2, k2, e2),
{
    if s1 == s2 {
        lemma_winding_consistent(k1, e1, k2, e2);
    } else {
        crate::topology::lemma_index_offset_in_range(3 * k1 + e1);
        crate::topology::lemma_index_offset_in_range(3 * k2 + e2);
        assert(s1 * 43 + 43 <= s2 * 43 || s2 * 43 + 43 <= s1 * 43) by (nonlinear_arith)
            requires s1 != s2, 0 <= s1, 0 <= s2,
        ;
    }
}

} // verus!

