//! Topology builder: the fixed triangle-index pattern for one finger's
//! vertex block.
//!
//! The pattern depends only on the finger's slot — its 0-based position
//! among the fingers assembled this frame — never on the pose. One finger's
//! block holds seven ring samples for each of the five chain joints, one
//! extra ring at the blunted tip, and a single apex vertex, 43 vertices in
//! all. The triangle list for a block covers three regions, in this order:
//! three triangles closing the open fan at the base, two triangles for each
//! of the five ring-to-ring transitions and each of the first six adjacent
//! sample pairs (the seventh pair sits on the open seam and is skipped), and
//! five triangles fanning the blunted-tip ring into the apex.

use vstd::prelude::*;
use vstd::arithmetic::div_mod::{
    lemma_div_is_ordered, lemma_div_pos_is_pos, lemma_fundamental_div_mod_converse,
    lemma_mod_bound,
};
use crate::fingers::{FINGER_COUNT, JOINT_COUNT};
use crate::rings::RING_COUNT;

verus! {

/// Vertices in one finger's block: one ring per chain joint, the blunted-tip
/// ring, and the apex vertex.
pub const VERTS_PER_FINGER: usize = 7 * 5 + 7 + 1;

/// Triangle indices emitted for one finger's block.
pub const INDICES_PER_FINGER: usize = 9 + 2 * 3 * 5 * 6 + 15;

/// Triangles in one finger's block.
pub const TRIS_PER_FINGER: usize = 68;

/// Vertex offsets, within one finger's block, of the three triangles that
/// close the open fan at the base of the tube.
pub open spec fn spec_start_cap_offsets() -> Seq<int> {
    seq![5, 4, 6, 4, 3, 6, 2, 1, 0]
}

/// Vertex offsets, within one finger's block, of the five triangles that fan
/// the blunted-tip ring (offsets 35 through 41) into the apex vertex
/// (offset 42).
pub open spec fn spec_end_cap_offsets() -> Seq<int> {
    seq![40, 41, 42, 39, 40, 42, 38, 39, 42, 36, 37, 42, 35, 36, 42]
}

/// Vertex offset of the `m`-th tube index. The tube walks the thirty
/// quads — ring-to-ring transition `j` (knuckle to tip) crossed with
/// adjacent sample pair `r` — emitting six indices per quad, two triangles
/// that share the diagonal between sample `r + 1` of ring `j` and sample
/// `r + 1` of ring `j + 1`.
pub open spec fn spec_tube_offset(m: int) -> int {
    let q = m / 6;
    let p = m % 6;
    let j = q / 6;
    let r = q % 6;
    if p == 0 {
        j * 7 + r + 1
    } else if p == 1 {
        j * 7 + r + 8
    } else if p == 2 {
        j * 7 + r
    } else if p == 3 {
        j * 7 + r + 8
    } else if p == 4 {
        j * 7 + r + 7
    } else {
        j * 7 + r
    }
}

/// Vertex offset, within one finger's block, of the `i`-th of the 204
/// triangle indices: base cap, then tube, then tip cap.
pub open spec fn spec_index_offset(i: int) -> int {
    if i < 9 {
        spec_start_cap_offsets()[i]
    } else if i < 189 {
        spec_tube_offset(i - 9)
    } else {
        spec_end_cap_offsets()[i - 189]
    }
}

/// Every index of the pattern addresses a vertex of the finger's own
/// 43-vertex block.
pub proof fn lemma_index_offset_in_range(i: int)
    requires
        0 <= i < 204,
    ensures
        0 <= spec_index_offset(i) < 43,
{
    if 9 <= i < 189 {
        let m = i - 9;
        let q = m / 6;
        lemma_div_pos_is_pos(m, 6);
        lemma_div_is_ordered(m, 179, 6);
        lemma_div_pos_is_pos(q, 6);
        lemma_div_is_ordered(q, 29, 6);
        lemma_mod_bound(m, 6);
        lemma_mod_bound(q, 6);
    }
}

/// Number of vertices in one finger's block.
pub fn vertex_count() -> (n: usize)
    ensures
        n == VERTS_PER_FINGER,
{
    RING_COUNT * JOINT_COUNT + RING_COUNT + 1
}

/// First vertex index of the block at the given slot.
pub fn start_vert(slot: usize) -> (v: usize)
    requires
        slot < FINGER_COUNT,
    ensures
        v == slot * 43,
{
    slot * 43
}

/// Last vertex index — the apex — of the block at the given slot.
pub fn end_vert(slot: usize) -> (v: usize)
    requires
        slot < FINGER_COUNT,
    ensures
        v == slot * 43 + 42,
{
    start_vert(slot) + 42
}

/// The triangle-index list for the finger block at the given slot: the fixed
/// 204-entry pattern shifted by the block's base vertex.
pub fn finger_indices(slot: usize) -> (idx: Vec<u16>)
    requires
        slot < FINGER_COUNT,
    ensures
        idx@.len() == INDICES_PER_FINGER,
        forall|i: int| 0 <= i < 204 ==> idx@[i] as int == slot * 43 + spec_index_offset(i),
        forall|i: int| 0 <= i < 204
            ==> slot * 43 <= idx@[i] as int && (idx@[i] as int) < slot * 43 + 43,
{
    let base: u16 = (slot as u16) * 43;
    let mut idx: Vec<u16> = Vec::new();

    // Base cap: close the open fan at the first ring.
    idx.push(base + 5);
    idx.push(base + 4);
    idx.push(base + 6);
    idx.push(base + 4);
    idx.push(base + 3);
    idx.push(base + 6);
    idx.push(base + 2);
    idx.push(base + 1);
    idx.push(base);

    assert(forall|i: int| 0 <= i < 9 ==> idx@[i] as int == slot * 43 + spec_index_offset(i));

    // Tube quads: transition j, sample pair r, two triangles each.
    let mut q: usize = 0;
    while q < 30
        invariant
            q <= 30,
            slot < 5,
            base == slot * 43,
            idx@.len() == 9 + 6 * q,
            forall|i: int| 0 <= i < idx@.len() ==> idx@[i] as int == slot * 43 + spec_index_offset(i),
        decreases 30 - q,
    {
        proof {
            lemma_div_pos_is_pos(q as int, 6);
            lemma_div_is_ordered(q as int, 29, 6);
            lemma_mod_bound(q as int, 6);
        }
        let j = (q / 6) as u16;
        let r = (q % 6) as u16;
        let a = base + j * 7 + r;
        let ghost old_len = idx@.len() as int;
        idx.push(a + 1);
        idx.push(a + 8);
        idx.push(a);
        idx.push(a + 8);
        idx.push(a + 7);
        idx.push(a);
        proof {
            assert forall|i: int| old_len <= i < idx@.len() implies
                idx@[i] as int == slot * 43 + spec_index_offset(i) by {
                let p = i - old_len;
                lemma_fundamental_div_mod_converse(6 * (q as int) + p, 6, q as int, p);
            }
        }
        q = q + 1;
    }

    // Tip cap: fan the blunted-tip ring into the apex.
    idx.push(base + 40);
    idx.push(base + 41);
    idx.push(base + 42);
    idx.push(base + 39);
    idx.push(base + 40);
    idx.push(base + 42);
    idx.push(base + 38);
    idx.push(base + 39);
    idx.push(base + 42);
    idx.push(base + 36);
    idx.push(base + 37);
    idx.push(base + 42);
    idx.push(base + 35);
    idx.push(base + 36);
    idx.push(base + 42);

    proof {
        assert(forall|i: int| 0 <= i < 204 ==> idx@[i] as int == slot * 43 + spec_index_offset(i));
        assert forall|i: int| 0 <= i < 204 implies
            slot * 43 <= idx@[i] as int && (idx@[i] as int) < slot * 43 + 43 by {
            lemma_index_offset_in_range(i);
        }
    }
    idx
}

} // verus!
