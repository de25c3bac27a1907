//! Finger geometry builder, exact part: the per-vertex build plan.
//!
//! Positions and normals are the only pose-dependent output, and their
//! arithmetic runs on real-valued joint poses. Everything that decides that
//! arithmetic is exact and is fixed here, per vertex: which joint pose and
//! which predecessor pose feed it (the orientation is the midpoint blend of
//! the two), which ring sample it takes its direction from, whether the
//! volume-preserving skew correction applies, whether the thumb's thinner
//! base halves the radius, and whether the vertex belongs to an ordinary
//! ring, the blunted-tip ring, or is the apex. A rendering host evaluates
//! the 43 steps of a finger's plan in order to fill the position and normal
//! buffers.

use vstd::prelude::*;
use vstd::arithmetic::div_mod::lemma_fundamental_div_mod_converse;
use crate::attributes::{chain_joint, spec_chain_joint};
use crate::fingers::{Finger, FingerJoint, spec_bone_index, spec_previous_in_chain};

verus! {

/// Percent of the tip radius by which the blunted-tip ring's anchor is
/// pushed forward from the tip joint.
pub const TIP_ANCHOR_FORWARD_PCT: u32 = 65;

/// Percent of the tip radius added as upward offset to the blunted-tip
/// ring.
pub const TIP_RING_UP_PCT: u32 = 25;

/// Percent by which the blunted-tip ring's radial scale shrinks.
pub const TIP_RING_SCALE_PCT: u32 = 75;

/// Percent of the tip radius of upward offset at the apex vertex; the apex
/// also sits a full tip radius forward.
pub const APEX_UP_PCT: u32 = 90;

/// Percent at which a joint's orientation is blended with its predecessor's:
/// the midpoint, smoothing the visible facet seam between segments.
pub const ORIENTATION_BLEND_PCT: u32 = 50;

/// Percent of the reported radius used at the thumb's base joints.
pub const HALF_RADIUS_PCT: u32 = 50;

/// What kind of vertex a build step produces.
#[derive(Clone, Copy, Debug, PartialEq, Eq, Structural)]
pub enum VertexKind {
    /// A sample of a chain joint's cross-section ring.
    Ring,
    /// A sample of the recentred, shrunken ring that blunts the fingertip.
    TipRing,
    /// The single vertex that closes the tube beyond the blunted ring.
    Apex,
}

/// One step of a finger's build plan: everything the pose-dependent
/// evaluation of one vertex needs besides the poses themselves.
#[derive(Clone, Copy, Debug, PartialEq, Eq, Structural)]
pub struct VertexStep {
    /// Which kind of vertex this step produces.
    pub kind: VertexKind,
    /// Joint identifier of the pose this vertex is anchored to.
    pub bone: usize,
    /// Joint identifier of the predecessor pose; the step's orientation is
    /// the midpoint blend of the two orientations.
    pub prev_bone: usize,
    /// Which entry of the angle tables the step samples.
    pub ring_sample: usize,
    /// Whether the volume-preserving skew correction applies to this step.
    pub skew: bool,
    /// Whether the radial scale is halved for the thumb's thinner base.
    pub half_radius: bool,
}

/// Whether the volume-preserving skew correction applies at a joint: only
/// interior joints widen at a bend — the tip, distal and metacarpal joints
/// never do, and the thumb's irregular chain also excludes its proximal
/// joint.
pub open spec fn spec_skew_applies(f: Finger, j: FingerJoint) -> bool {
    &&& !(j is Tip || j is Distal || j is Metacarpal)
    &&& !(f is Thumb && (j is Metacarpal || j is Proximal))
}

/// Whether the radial scale is halved: the thumb's two base joints draw a
/// visually thinner segment.
pub open spec fn spec_half_radius(f: Finger, j: FingerJoint) -> bool {
    f is Thumb && (j is Metacarpal || j is Proximal)
}

/// Whether the volume-preserving skew correction applies at a joint.
pub fn skew_applies(f: Finger, j: FingerJoint) -> (b: bool)
    ensures
        b == spec_skew_applies(f, j),
{
    let interior = !(matches!(j, FingerJoint::Tip)
        || matches!(j, FingerJoint::Distal)
        || matches!(j, FingerJoint::Metacarpal));
    let thumb_base = matches!(f, Finger::Thumb)
        && (matches!(j, FingerJoint::Metacarpal) || matches!(j, FingerJoint::Proximal));
    interior && !thumb_base
}

/// Whether the radial scale is halved at a joint.
pub fn half_radius(f: Finger, j: FingerJoint) -> (b: bool)
    ensures
        b == spec_half_radius(f, j),
{
    matches!(f, Finger::Thumb)
        && (matches!(j, FingerJoint::Metacarpal) || matches!(j, FingerJoint::Proximal))
}

/// Step `i` of finger `f`'s build plan: seven ring samples for each chain
/// joint in knuckle-to-tip order, seven samples of the blunted-tip ring,
/// then the apex.
pub open spec fn spec_vertex_step(f: Finger, i: int) -> VertexStep {
    if i < 35 {
        let j = spec_chain_joint(i / 7);
        VertexStep {
            kind: VertexKind::Ring,
            bone: spec_bone_index(f, j) as usize,
            prev_bone: spec_bone_index(f, spec_previous_in_chain(j)) as usize,
            ring_sample: (i % 7) as usize,
            skew: spec_skew_applies(f, j),
            half_radius: spec_half_radius(f, j),
        }
    } else if i < 42 {
        VertexStep {
            kind: VertexKind::TipRing,
            bone: spec_bone_index(f, FingerJoint::Tip) as usize,
            prev_bone: spec_bone_index(f, FingerJoint::Distal) as usize,
            ring_sample: (i - 35) as usize,
            skew: false,
            half_radius: false,
        }
    } else {
        VertexStep {
            kind: VertexKind::Apex,
            bone: spec_bone_index(f, FingerJoint::Tip) as usize,
            prev_bone: spec_bone_index(f, FingerJoint::Distal) as usize,
            ring_sample: 0,
            skew: false,
            half_radius: false,
        }
    }
}

/// The 43-step build plan of one finger's vertex block.
pub fn finger_vertex_plan(finger: Finger) -> (plan: Vec<VertexStep>)
    ensures
        plan@.len() == 43,
        forall|i: int| 0 <= i < 43 ==> plan@[i] == spec_vertex_step(finger, i),
{
    let mut plan: Vec<VertexStep> = Vec::new();
    let mut c: usize = 0;
    while c < 5
        invariant
            c <= 5,
            plan@.len() == 7 * c,
            forall|i: int| 0 <= i < plan@.len() ==> plan@[i] == spec_vertex_step(finger, i),
        decreases 5 - c,
    {
        let joint = chain_joint(c);
        let bone = finger.hand_bone(&joint);
        let prev_bone = finger.hand_bone(&joint.previous_in_chain());
        let skew = skew_applies(finger, joint);
        let half = half_radius(finger, joint);
        let mut v: usize = 0;
        while v < 7
            invariant
                v <= 7,
                c < 5,
                joint == spec_chain_joint(c as int),
                bone == spec_bone_index(finger, joint),
                prev_bone == spec_bone_index(finger, spec_previous_in_chain(joint)),
                skew == spec_skew_applies(finger, joint),
                half == spec_half_radius(finger, joint),
                plan@.len() == 7 * c + v,
                forall|i: int| 0 <= i < plan@.len() ==> plan@[i] == spec_vertex_step(finger, i),
            decreases 7 - v,
        {
            let ghost i = plan@.len() as int;
            plan.push(VertexStep {
                kind: VertexKind::Ring,
                bone,
                prev_bone,
                ring_sample: v,
                skew,
                half_radius: half,
            });
            proof {
                lemma_fundamental_div_mod_converse(i, 7, c as int, v as int);
            }
            v = v + 1;
        }
        c = c + 1;
    }
    // The blunted-tip ring: anchored to the tip pose, recentred and shrunk.
    let tip_bone = finger.hand_bone(&FingerJoint::Tip);
    let distal_bone = finger.hand_bone(&FingerJoint::Distal);
    let mut v: usize = 0;
    while v < 7
        invariant
            v <= 7,
            tip_bone == spec_bone_index(finger, FingerJoint::Tip),
            distal_bone == spec_bone_index(finger, FingerJoint::Distal),
            plan@.len() == 35 + v,
            forall|i: int| 0 <= i < plan@.len() ==> plan@[i] == spec_vertex_step(finger, i),
        decreases 7 - v,
    {
        plan.push(VertexStep {
            kind: VertexKind::TipRing,
            bone: tip_bone,
            prev_bone: distal_bone,
            ring_sample: v,
            skew: false,
            half_radius: false,
        });
        v = v + 1;
    }
    // The apex vertex, beyond the blunted ring.
    plan.push(VertexStep {
        kind: VertexKind::Apex,
        bone: tip_bone,
        prev_bone: distal_bone,
        ring_sample: 0,
        skew: false,
        half_radius: false,
    });
    plan
}

} // verus!
