//! Mesh assembler: selects the tracked fingers, assigns them contiguous
//! slots, and merges the per-finger buffers into one mesh plan.
//!
//! Fingers are visited in fixed reverse-declaration order — little, ring,
//! middle, index, thumb. A finger whose tip joint lacks either tracked flag
//! contributes nothing and consumes no slot; the kept fingers take
//! contiguous 0-based slots in visit order, so the topology renumbers itself
//! when a finger drops out. When no finger is tracked, nothing is built and
//! the previously published mesh stands.

use vstd::prelude::*;
use vstd::arithmetic::div_mod::{
    lemma_div_is_ordered, lemma_div_pos_is_pos, lemma_fundamental_div_mod_converse,
};
use crate::attributes::{Uv, VertexColor, finger_uvs, finger_vertex_colors, spec_uv_at,
    spec_vertex_color_at};
use crate::fingers::{BONE_COUNT, Finger, FingerJoint, spec_bone_index};
use crate::plan::{VertexStep, finger_vertex_plan, spec_vertex_step};
use crate::topology::{finger_indices, lemma_index_offset_in_range, spec_index_offset};

verus! {

/// The per-joint tracking state the tracking subsystem reports.
#[derive(Clone, Copy, Debug, PartialEq, Eq, Structural)]
pub struct JointFlags {
    /// Whether the joint's position is currently tracked.
    pub position_tracked: bool,
    /// Whether the joint's rotation is currently tracked.
    pub rotation_tracked: bool,
}

/// A finger is eligible for meshing only if its tip joint has both tracked
/// flags set.
pub open spec fn spec_finger_active(flags: Seq<JointFlags>, f: Finger) -> bool {
    &&& flags[spec_bone_index(f, FingerJoint::Tip)].position_tracked
    &&& flags[spec_bone_index(f, FingerJoint::Tip)].rotation_tracked
}

/// The fixed order in which fingers are visited and assigned slots:
/// reverse declaration order.
pub open spec fn spec_assembly_order() -> Seq<Finger> {
    seq![Finger::Little, Finger::Ring, Finger::Middle, Finger::Index, Finger::Thumb]
}

/// The active fingers among positions `k` and later of the assembly order,
/// kept in order.
pub open spec fn spec_active_suffix(flags: Seq<JointFlags>, k: int) -> Seq<Finger>
    decreases 5 - k,
{
    if k < 0 || k >= 5 {
        Seq::empty()
    } else if spec_finger_active(flags, spec_assembly_order()[k]) {
        seq![spec_assembly_order()[k]] + spec_active_suffix(flags, k + 1)
    } else {
        spec_active_suffix(flags, k + 1)
    }
}

/// The fingers meshed this frame, in slot order.
pub open spec fn spec_active_fingers(flags: Seq<JointFlags>) -> Seq<Finger> {
    spec_active_suffix(flags, 0)
}

/// A finger stands in the active suffix from `k` exactly when it is active
/// and the assembly order still has it ahead at position `k` or later.
proof fn lemma_active_suffix_membership(flags: Seq<JointFlags>, k: int, f: Finger)
    requires
        0 <= k <= 5,
    ensures
        spec_active_suffix(flags, k).contains(f) <==> (spec_finger_active(flags, f)
            && exists|i: int| k <= i < 5 && spec_assembly_order()[i] == f),
    decreases 5 - k,
{
    if k < 5 {
        lemma_active_suffix_membership(flags, k + 1, f);
        let here = spec_assembly_order()[k];
        let rest = spec_active_suffix(flags, k + 1);
        if spec_finger_active(flags, here) {
            let s = seq![here] + rest;
            assert(s[0] == here);
            assert(forall|n: int| 0 <= n < rest.len() ==> s[n + 1] == rest[n]);
            if s.contains(f) {
                let n = choose|n: int| 0 <= n < s.len() && s[n] == f;
                if n > 0 {
                    assert(rest[n - 1] == f);
                    assert(rest.contains(f));
                }
            }
            if f == here || rest.contains(f) {
                if f == here {
                    assert(s[0] == f);
                } else {
                    let n = choose|n: int| 0 <= n < rest.len() && rest[n] == f;
                    assert(s[n + 1] == f);
                }
                assert(s.contains(f));
            }
        }
    }
}

/// No finger is dropped or invented: a finger is meshed this frame exactly
/// when its tip joint carries both tracked flags.
pub proof fn lemma_finger_kept_iff_tracked(flags: Seq<JointFlags>, f: Finger)
    ensures
        spec_active_fingers(flags).contains(f) <==> spec_finger_active(flags, f),
{
    lemma_active_suffix_membership(flags, 0, f);
    match f {
        Finger::Little => assert(spec_assembly_order()[0] == f),
        Finger::Ring => assert(spec_assembly_order()[1] == f),
        Finger::Middle => assert(spec_assembly_order()[2] == f),
        Finger::Index => assert(spec_assembly_order()[3] == f),
        Finger::Thumb => assert(spec_assembly_order()[4] == f),
    }
}

/// A finger's position in the assembly order.
pub open spec fn spec_order_pos(f: Finger) -> int {
    match f {
        Finger::Little => 0,
        Finger::Ring => 1,
        Finger::Middle => 2,
        Finger::Index => 3,
        Finger::Thumb => 4,
    }
}

/// The active suffix from `k` holds fingers from position `k` onward, in
/// strictly increasing assembly order.
proof fn lemma_active_suffix_ordered(flags: Seq<JointFlags>, k: int)
    requires
        0 <= k <= 5,
    ensures
        forall|s: int| 0 <= s < spec_active_suffix(flags, k).len()
            ==> k <= spec_order_pos(#[trigger] spec_active_suffix(flags, k)[s]) < 5,
        forall|s1: int, s2: int| 0 <= s1 < s2 < spec_active_suffix(flags, k).len()
            ==> spec_order_pos(#[trigger] spec_active_suffix(flags, k)[s1])
                < spec_order_pos(#[trigger] spec_active_suffix(flags, k)[s2]),
    decreases 5 - k,
{
    if k < 5 {
        lemma_active_suffix_ordered(flags, k + 1);
        let here = spec_assembly_order()[k];
        let rest = spec_active_suffix(flags, k + 1);
        assert(spec_order_pos(here) == k);
        if spec_finger_active(flags, here) {
            let s = seq![here] + rest;
            assert(s[0] == here);
            assert(forall|n: int| 0 <= n < rest.len() ==> s[n + 1] == rest[n]);
        }
    }
}

/// Kept fingers stay in assembly order: whatever subset of fingers is
/// tracked, slot numbers run contiguously from zero and never swap two
/// fingers, so losing a finger only closes the gap.
pub proof fn lemma_slots_keep_assembly_order(flags: Seq<JointFlags>, s1: int, s2: int)
    requires
        0 <= s1 < s2 < spec_active_fingers(flags).len(),
    ensures
        spec_order_pos(spec_active_fingers(flags)[s1])
            < spec_order_pos(spec_active_fingers(flags)[s2]),
{
    lemma_active_suffix_ordered(flags, 0);
}

/// One hand's assembled mesh plan for one frame: the active fingers in slot
/// order and the concatenation of their per-finger buffers. Positions and
/// normals are pose-dependent; the vertex build steps stand in for them,
/// and a rendering host evaluates step `i` into position `i` and normal `i`
/// of the uploaded mesh, so the index, UV and color buffers address the
/// evaluated buffers one for one.
pub struct HandMeshPlan {
    /// The meshed fingers; the finger at position `s` owns vertex block `s`.
    pub fingers: Vec<Finger>,
    /// Vertex build steps, 43 per finger.
    pub vertices: Vec<VertexStep>,
    /// Texture coordinates, 43 per finger.
    pub uvs: Vec<Uv>,
    /// Vertex colors, 43 per finger.
    pub colors: Vec<VertexColor>,
    /// Triangle indices into the vertex blocks, 204 per finger.
    pub indices: Vec<u16>,
}

impl HandMeshPlan {
    /// What `assemble` promises of a plan built from the given flags: the
    /// kept fingers are exactly the active ones in assembly order, each
    /// buffer concatenates the per-finger tables in slot order, and every
    /// triangle index points into its own finger's vertex block.
    pub open spec fn wf_for(self, flags: Seq<JointFlags>) -> bool {
        let act = spec_active_fingers(flags);
        &&& self.fingers@ == act
        &&& act.len() >= 1
        &&& self.vertices@.len() == act.len() * 43
        &&& self.uvs@.len() == act.len() * 43
        &&& self.colors@.len() == act.len() * 43
        &&& self.indices@.len() == act.len() * 204
        &&& forall|t: int| 0 <= t < self.vertices@.len()
            ==> self.vertices@[t] == spec_vertex_step(act[t / 43], t % 43)
        &&& forall|t: int| 0 <= t < self.uvs@.len()
            ==> self.uvs@[t] == spec_uv_at(act[t / 43], t % 43)
        &&& forall|t: int| 0 <= t < self.colors@.len()
            ==> self.colors@[t] == spec_vertex_color_at(t % 43)
        &&& forall|t: int| 0 <= t < self.indices@.len()
            ==> self.indices@[t] as int == (t / 204) * 43 + spec_index_offset(t % 204)
    }
}

/// Assemble the mesh plan for one frame from the per-joint tracked flags,
/// or nothing when no finger is tracked.
pub fn assemble(flags: &[JointFlags; BONE_COUNT]) -> (r: Option<HandMeshPlan>)
    ensures
        match r {
            Option::None => spec_active_fingers(flags@).len() == 0,
            Option::Some(plan) => plan.wf_for(flags@),
        },
{
    let order: [Finger; 5] = [
        Finger::Little,
        Finger::Ring,
        Finger::Middle,
        Finger::Index,
        Finger::Thumb,
    ];
    proof {
        assert(order@ =~= spec_assembly_order());
    }
    let mut fingers: Vec<Finger> = Vec::new();
    let mut vertices: Vec<VertexStep> = Vec::new();
    let mut uvs: Vec<Uv> = Vec::new();
    let mut colors: Vec<VertexColor> = Vec::new();
    let mut indices: Vec<u16> = Vec::new();

    let mut k: usize = 0;
    while k < 5
        invariant
            k <= 5,
            order@ == spec_assembly_order(),
            fingers@.len() <= k,
            spec_active_fingers(flags@) == fingers@ + spec_active_suffix(flags@, k as int),
            vertices@.len() == fingers@.len() * 43,
            uvs@.len() == fingers@.len() * 43,
            colors@.len() == fingers@.len() * 43,
            indices@.len() == fingers@.len() * 204,
            forall|t: int| 0 <= t < vertices@.len()
                ==> vertices@[t] == spec_vertex_step(fingers@[t / 43], t % 43),
            forall|t: int| 0 <= t < uvs@.len()
                ==> uvs@[t] == spec_uv_at(fingers@[t / 43], t % 43),
            forall|t: int| 0 <= t < colors@.len()
                ==> colors@[t] == spec_vertex_color_at(t % 43),
            forall|t: int| 0 <= t < indices@.len()
                ==> indices@[t] as int == (t / 204) * 43 + spec_index_offset(t % 204),
        decreases 5 - k,
    {
        let f = order[k];
        let tip = f.hand_bone(&FingerJoint::Tip);
        let fl = flags[tip];
        if fl.position_tracked && fl.rotation_tracked {
            let slot = fingers.len();
            let ghost old_fingers = fingers@;
            fingers.push(f);
            proof {
                assert(fingers@ =~= old_fingers + seq![f]);
                assert(old_fingers + spec_active_suffix(flags@, k as int)
                    =~= fingers@ + spec_active_suffix(flags@, k as int + 1));
            }

            let ghost old_len = vertices@.len() as int;
            let mut step_block = finger_vertex_plan(f);
            vertices.append(&mut step_block);
            proof {
                assert forall|t: int| 0 <= t < vertices@.len() implies
                    vertices@[t] == spec_vertex_step(fingers@[t / 43], t % 43) by {
                    if t < old_len {
                        assert(fingers@[t / 43] == old_fingers[t / 43]);
                    } else {
                        lemma_fundamental_div_mod_converse(t, 43, slot as int, t - old_len);
                    }
                }
            }

            let mut uv_block = finger_uvs(f);
            uvs.append(&mut uv_block);
            proof {
                assert forall|t: int| 0 <= t < uvs@.len() implies
                    uvs@[t] == spec_uv_at(fingers@[t / 43], t % 43) by {
                    if t < old_len {
                        assert(fingers@[t / 43] == old_fingers[t / 43]);
                    } else {
                        lemma_fundamental_div_mod_converse(t, 43, slot as int, t - old_len);
                    }
                }
            }

            let mut color_block = finger_vertex_colors();
            colors.append(&mut color_block);
            proof {
                assert forall|t: int| 0 <= t < colors@.len() implies
                    colors@[t] == spec_vertex_color_at(t % 43) by {
                    if t >= old_len {
                        lemma_fundamental_div_mod_converse(t, 43, slot as int, t - old_len);
                    }
                }
            }

            let ghost old_idx_len = indices@.len() as int;
            let mut index_block = finger_indices(slot);
            indices.append(&mut index_block);
            proof {
                assert forall|t: int| 0 <= t < indices@.len() implies
                    indices@[t] as int == (t / 204) * 43 + spec_index_offset(t % 204) by {
                    if t >= old_idx_len {
                        lemma_fundamental_div_mod_converse(t, 204, slot as int, t - old_idx_len);
                    }
                }
            }
        } else {
            proof {
                assert(fingers@ + spec_active_suffix(flags@, k as int)
                    =~= fingers@ + spec_active_suffix(flags@, k as int + 1));
            }
        }
        k = k + 1;
    }

    if fingers.len() == 0 {
        proof {
            assert(spec_active_fingers(flags@) =~= Seq::<Finger>::empty());
        }
        Option::None
    } else {
        proof {
            assert(fingers@ =~= spec_active_fingers(flags@));
        }
        Option::Some(HandMeshPlan { fingers, vertices, uvs, colors, indices })
    }
}

/// For any number of tracked fingers `n`, the assembled plan holds exactly
/// `n * 43` vertex steps, texture coordinates and colors and `n * 204`
/// triangle indices, and every index addresses one of the plan's own
/// vertices.
pub proof fn lemma_plan_counts(flags: Seq<JointFlags>, plan: HandMeshPlan)
    requires
        plan.wf_for(flags),
    ensures
        plan.vertices@.len() == spec_active_fingers(flags).len() * 43,
        plan.uvs@.len() == plan.vertices@.len(),
        plan.colors@.len() == plan.vertices@.len(),
        plan.indices@.len() == spec_active_fingers(flags).len() * 204,
        forall|t: int| 0 <= t < plan.indices@.len()
            ==> (plan.indices@[t] as int) < plan.vertices@.len(),
{
    let n = spec_active_fingers(flags).len() as int;
    assert forall|t: int| 0 <= t < plan.indices@.len() implies
        (plan.indices@[t] as int) < plan.vertices@.len() by {
        let s = t / 204;
        let i = t % 204;
        lemma_div_pos_is_pos(t, 204);
        lemma_div_is_ordered(t, 204 * n - 1, 204);
        lemma_fundamental_div_mod_converse(204 * n - 1, 204, n - 1, 203);
        lemma_index_offset_in_range(i);
        assert(s <= n - 1);
        assert(s * 43 + spec_index_offset(i) < (s + 1) * 43);
        assert((s + 1) * 43 <= n * 43) by (nonlinear_arith)
            requires s + 1 <= n,
        ;
    }
}

/// The last-good-mesh cell: the mesh most recently built, retained
/// unchanged over frames in which nothing is published.
pub struct MeshStore {
    /// The most recently published plan, if any frame has published yet.
    pub current: Option<HandMeshPlan>,
}

impl MeshStore {
    /// An empty store: nothing published yet.
    pub fn new() -> (s: MeshStore)
        ensures
            s.current is None,
    {
        MeshStore { current: Option::None }
    }

    /// Publish a frame's result: a built plan replaces the stored one
    /// wholesale; no result leaves the stored plan untouched.
    pub fn publish(&mut self, built: Option<HandMeshPlan>)
        ensures
            built is Some ==> final(self).current == built,
            built is None ==> final(self).current == old(self).current,
    {
        if built.is_some() {
            self.current = built;
        }
    }
}

/// One frame's update for one hand: assemble from the tracked flags and
/// publish, keeping the previous mesh when no finger is tracked.
pub fn update_hand_mesh(store: &mut MeshStore, flags: &[JointFlags; BONE_COUNT])
    ensures
        spec_active_fingers(flags@).len() == 0 ==> final(store).current == old(store).current,
        spec_active_fingers(flags@).len() > 0 ==> (final(store).current matches Option::Some(p)
            && p.wf_for(flags@)),
{
    let built = assemble(flags);
    store.publish(built);
}

} // verus!
