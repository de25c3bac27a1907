//! Fingers, finger joints, and the mapping from a finger/joint pair to the
//! joint identifier under which the tracking subsystem reports its pose.

use vstd::prelude::*;

verus! {

/// Number of fingers on a hand.
pub const FINGER_COUNT: usize = 5;

/// Number of joints in one finger's chain.
pub const JOINT_COUNT: usize = 5;

/// Number of joint identifiers in one hand's skeleton snapshot: the palm and
/// wrist, then five bones for each of the five fingers.
pub const BONE_COUNT: usize = 26;

/// One finger of the hand.
#[derive(Clone, Copy, Debug, PartialEq, Eq, Structural)]
pub enum Finger {
    Thumb,
    Index,
    Middle,
    Ring,
    Little,
}

/// One joint of a finger's chain, ordered from the knuckle to the fingertip.
#[derive(Clone, Copy, Debug, PartialEq, Eq, Structural)]
pub enum FingerJoint {
    Metacarpal,
    Proximal,
    Intermediate,
    Distal,
    Tip,
}

/// Position of a finger in declaration order.
pub open spec fn finger_idx(f: Finger) -> int {
    match f {
        Finger::Thumb => 0,
        Finger::Index => 1,
        Finger::Middle => 2,
        Finger::Ring => 3,
        Finger::Little => 4,
    }
}

/// Position of a joint in its finger's chain.
pub open spec fn joint_idx(j: FingerJoint) -> int {
    match j {
        FingerJoint::Metacarpal => 0,
        FingerJoint::Proximal => 1,
        FingerJoint::Intermediate => 2,
        FingerJoint::Distal => 3,
        FingerJoint::Tip => 4,
    }
}

/// The joint one step closer to the knuckle; the metacarpal's predecessor is
/// itself.
pub open spec fn spec_previous_in_chain(j: FingerJoint) -> FingerJoint {
    match j {
        FingerJoint::Metacarpal => FingerJoint::Metacarpal,
        FingerJoint::Proximal => FingerJoint::Metacarpal,
        FingerJoint::Intermediate => FingerJoint::Proximal,
        FingerJoint::Distal => FingerJoint::Intermediate,
        FingerJoint::Tip => FingerJoint::Distal,
    }
}

/// Joint identifier under which the tracking subsystem reports this
/// finger/joint pair. The skeleton lays fingers out five bones apart starting
/// after the palm and wrist; the thumb is irregular: it has no bone of its
/// own for the metacarpal step, so its chain starts at the wrist and each of
/// its joints reads the bone named one step earlier.
pub open spec fn spec_bone_index(f: Finger, j: FingerJoint) -> int {
    if f is Thumb {
        1 + joint_idx(j)
    } else {
        finger_idx(f) * 5 + joint_idx(j) + 1
    }
}

impl FingerJoint {
    /// The joint one step closer to the knuckle in the chain.
    pub fn previous_in_chain(&self) -> (p: FingerJoint)
        ensures
            p == spec_previous_in_chain(*self),
    {
        match self {
            FingerJoint::Metacarpal => FingerJoint::Metacarpal,
            FingerJoint::Proximal => FingerJoint::Metacarpal,
            FingerJoint::Intermediate => FingerJoint::Proximal,
            FingerJoint::Distal => FingerJoint::Intermediate,
            FingerJoint::Tip => FingerJoint::Distal,
        }
    }

    /// Position of this joint in its finger's chain.
    pub fn index(&self) -> (i: usize)
        ensures
            i == joint_idx(*self),
    {
        match self {
            FingerJoint::Metacarpal => 0,
            FingerJoint::Proximal => 1,
            FingerJoint::Intermediate => 2,
            FingerJoint::Distal => 3,
            FingerJoint::Tip => 4,
        }
    }
}

impl Finger {
    /// Position of this finger in declaration order.
    pub fn index(&self) -> (i: usize)
        ensures
            i == finger_idx(*self),
    {
        match self {
            Finger::Thumb => 0,
            Finger::Index => 1,
            Finger::Middle => 2,
            Finger::Ring => 3,
            Finger::Little => 4,
        }
    }

    /// Joint identifier of the given joint of this finger.
    pub fn hand_bone(&self, joint: &FingerJoint) -> (b: usize)
        ensures
            b == spec_bone_index(*self, *joint),
            b < BONE_COUNT,
    {
        match self {
            Finger::Thumb => 1 + joint.index(),
            _ => self.index() * 5 + joint.index() + 1,
        }
    }
}

} // verus!
