//! Ring sampler: the two constant angle tables from which the cross-section
//! direction vectors are taken.
//!
//! Each table entry is an angle in degrees; the rendering host turns entry
//! `a` into the unit direction `(cos a, sin a, 0)`. The position ring and the
//! normal ring are intentionally different: the normal ring is offset from
//! the position ring to approximate a rounded, non-circular cross-section.
//! Seven samples span roughly half a turn, so the cross-section is an open
//! fan, not a closed loop — the seam between the last and first sample is
//! never connected by tube geometry.

use vstd::prelude::*;

verus! {

/// Number of samples in each cross-section ring.
pub const RING_COUNT: usize = 7;

/// Angles, in degrees, of the position-ring samples.
pub open spec fn spec_ring_angles_deg() -> Seq<u16> {
    seq![162u16, 90u16, 18u16, 18u16, 306u16, 234u16, 162u16]
}

/// Angles, in degrees, of the normal-ring samples.
pub open spec fn spec_ring_normal_angles_deg() -> Seq<u16> {
    seq![126u16, 90u16, 54u16, 18u16, 306u16, 234u16, 162u16]
}

/// The position-ring angle table, in degrees.
pub fn ring_angles_deg() -> (a: [u16; 7])
    ensures
        a@ == spec_ring_angles_deg(),
{
    let a: [u16; 7] = [162, 90, 18, 18, 306, 234, 162];
    proof {
        assert(a@ =~= spec_ring_angles_deg());
    }
    a
}

/// The normal-ring angle table, in degrees.
pub fn ring_normal_angles_deg() -> (a: [u16; 7])
    ensures
        a@ == spec_ring_normal_angles_deg(),
{
    let a: [u16; 7] = [126, 90, 54, 18, 306, 234, 162];
    proof {
        assert(a@ =~= spec_ring_normal_angles_deg());
    }
    a
}

} // verus!
