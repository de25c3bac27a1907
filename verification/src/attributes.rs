//! Attribute cache: pose-independent UV and vertex-color tables per finger
//! identity.
//!
//! Both tables depend only on which finger a block belongs to, never on the
//! pose, so a host may compute them once and reuse them every frame. Texture
//! coordinates are held in hundredths and color channels in thousandths of
//! full intensity; the rendering host divides them out when it uploads the
//! buffers.

use vstd::prelude::*;
use vstd::arithmetic::div_mod::{lemma_div_is_ordered, lemma_fundamental_div_mod_converse};
use crate::fingers::{Finger, FingerJoint, finger_idx, joint_idx, spec_previous_in_chain};
use crate::palette::{color_at, spec_color_channel};

verus! {

/// One texture coordinate, held in hundredths: the sampled point is
/// `(x_centi / 100, y_centi / 100)`.
#[derive(Clone, Copy, Debug, PartialEq, Eq, Structural)]
pub struct Uv {
    pub x_centi: u8,
    pub y_centi: u8,
}

/// One RGBA vertex color, channels held in thousandths of full intensity.
#[derive(Clone, Copy, Debug, PartialEq, Eq, Structural)]
pub struct VertexColor {
    pub r: u16,
    pub g: u16,
    pub b: u16,
    pub a: u16,
}

/// The joint of a finger's chain at position `c`, knuckle to tip.
pub open spec fn spec_chain_joint(c: int) -> FingerJoint {
    if c == 0 {
        FingerJoint::Metacarpal
    } else if c == 1 {
        FingerJoint::Proximal
    } else if c == 2 {
        FingerJoint::Intermediate
    } else if c == 3 {
        FingerJoint::Distal
    } else {
        FingerJoint::Tip
    }
}

/// The joint of a finger's chain at position `c`.
pub fn chain_joint(c: usize) -> (j: FingerJoint)
    requires
        c < 5,
    ensures
        j == spec_chain_joint(c as int),
{
    match c {
        0 => FingerJoint::Metacarpal,
        1 => FingerJoint::Proximal,
        2 => FingerJoint::Intermediate,
        3 => FingerJoint::Distal,
        _ => FingerJoint::Tip,
    }
}

/// Texture row, in hundredths, of chain position `k`: the base of the finger
/// reads the bottom of the ramp texture and rows crowd together toward the
/// bright tip.
pub open spec fn spec_uv_row_centi(k: int) -> int {
    if k == 0 {
        100
    } else if k == 1 {
        56
    } else if k == 2 {
        31
    } else if k == 3 {
        15
    } else if k == 4 {
        4
    } else {
        1
    }
}

/// Texture column, in hundredths, of a finger: one texel column per finger,
/// centered within the finger's fifth of the texture.
pub open spec fn spec_uv_x_centi(f: Finger) -> int {
    20 * finger_idx(f) + 10
}

/// Texture row, in hundredths, used by chain position `c` of finger `f`. The
/// thumb's chain mapping is irregular, so it reads its predecessor joint's
/// row.
pub open spec fn spec_uv_y_centi(f: Finger, c: int) -> int {
    if f is Thumb {
        spec_uv_row_centi(joint_idx(spec_previous_in_chain(spec_chain_joint(c))))
    } else {
        spec_uv_row_centi(c)
    }
}

/// The texture coordinate of vertex `i` of a finger's 43-vertex block: one
/// row per chain joint, repeated for the blunted-tip ring, and the top of
/// the texture for the apex vertex.
pub open spec fn spec_uv_at(f: Finger, i: int) -> Uv {
    if i < 35 {
        Uv { x_centi: spec_uv_x_centi(f) as u8, y_centi: spec_uv_y_centi(f, i / 7) as u8 }
    } else if i < 42 {
        Uv { x_centi: spec_uv_x_centi(f) as u8, y_centi: spec_uv_y_centi(f, 4) as u8 }
    } else {
        Uv { x_centi: spec_uv_x_centi(f) as u8, y_centi: 0 }
    }
}

/// Texture row, in hundredths, of chain position `k`.
fn uv_row_centi(k: usize) -> (y: u8)
    requires
        k < 6,
    ensures
        y as int == spec_uv_row_centi(k as int),
{
    match k {
        0 => 100,
        1 => 56,
        2 => 31,
        3 => 15,
        4 => 4,
        _ => 1,
    }
}

/// The texture coordinates of one finger's 43-vertex block.
pub fn finger_uvs(finger: Finger) -> (uvs: Vec<Uv>)
    ensures
        uvs@.len() == 43,
        forall|i: int| 0 <= i < 43 ==> uvs@[i] == spec_uv_at(finger, i),
{
    let x = (20 * finger.index() + 10) as u8;
    let mut uvs: Vec<Uv> = Vec::new();
    let mut c: usize = 0;
    while c < 5
        invariant
            c <= 5,
            x as int == spec_uv_x_centi(finger),
            uvs@.len() == 7 * c,
            forall|i: int| 0 <= i < uvs@.len() ==> uvs@[i] == spec_uv_at(finger, i),
        decreases 5 - c,
    {
        let joint = chain_joint(c);
        let row = match finger {
            Finger::Thumb => joint.previous_in_chain().index(),
            _ => joint.index(),
        };
        let y = uv_row_centi(row);
        let mut v: usize = 0;
        while v < 7
            invariant
                v <= 7,
                c < 5,
                x as int == spec_uv_x_centi(finger),
                y as int == spec_uv_y_centi(finger, c as int),
                uvs@.len() == 7 * c + v,
                forall|i: int| 0 <= i < uvs@.len() ==> uvs@[i] == spec_uv_at(finger, i),
            decreases 7 - v,
        {
            let ghost i = uvs@.len() as int;
            uvs.push(Uv { x_centi: x, y_centi: y });
            proof {
                lemma_fundamental_div_mod_converse(i, 7, c as int, v as int);
            }
            v = v + 1;
        }
        c = c + 1;
    }
    // The blunted-tip ring repeats the tip joint's row.
    let tip_row = match finger {
        Finger::Thumb => FingerJoint::Tip.previous_in_chain().index(),
        _ => FingerJoint::Tip.index(),
    };
    let tip_y = uv_row_centi(tip_row);
    let mut v: usize = 0;
    while v < 7
        invariant
            v <= 7,
            x as int == spec_uv_x_centi(finger),
            tip_y as int == spec_uv_y_centi(finger, 4),
            uvs@.len() == 35 + v,
            forall|i: int| 0 <= i < uvs@.len() ==> uvs@[i] == spec_uv_at(finger, i),
        decreases 7 - v,
    {
        uvs.push(Uv { x_centi: x, y_centi: tip_y });
        v = v + 1;
    }
    // The apex vertex samples the top of the texture.
    uvs.push(Uv { x_centi: x, y_centi: 0 });
    uvs
}

/// Fixed-point ramp parameter of chain position `c`: its normalized position
/// along the chain, `c / (JOINT_COUNT - 1)`.
pub open spec fn spec_joint_ramp_t(c: int) -> int {
    750 * c
}

/// An 8-bit palette channel re-quantized to thousandths of full intensity,
/// truncated toward zero.
pub open spec fn spec_channel_milli(v: int) -> int {
    (v * 1000) / 255
}

/// The ramp color at chain position `c`, as a vertex color.
pub open spec fn spec_joint_gradient_color(c: int) -> VertexColor {
    VertexColor {
        r: spec_channel_milli(spec_color_channel(spec_joint_ramp_t(c), 0)) as u16,
        g: spec_channel_milli(spec_color_channel(spec_joint_ramp_t(c), 1)) as u16,
        b: spec_channel_milli(spec_color_channel(spec_joint_ramp_t(c), 2)) as u16,
        a: spec_channel_milli(spec_color_channel(spec_joint_ramp_t(c), 3)) as u16,
    }
}

/// An 8-bit palette channel re-quantized to thousandths.
fn channel_milli(v: u8) -> (m: u16)
    ensures
        m as int == spec_channel_milli(v as int),
{
    proof {
        lemma_div_is_ordered(v as int * 1000, 255000, 255);
    }
    ((v as u32) * 1000 / 255) as u16
}

/// The ramp color at the given joint's chain position, as a vertex color.
pub fn joint_gradient_color(joint: FingerJoint) -> (col: VertexColor)
    ensures
        col == spec_joint_gradient_color(joint_idx(joint)),
{
    let t = 750 * (joint.index() as u32);
    let c = color_at(t);
    VertexColor {
        r: channel_milli(c[0]),
        g: channel_milli(c[1]),
        b: channel_milli(c[2]),
        a: channel_milli(c[3]),
    }
}

/// Solid white, the highlight tier of the vertex coloring.
pub open spec fn spec_white() -> VertexColor {
    VertexColor { r: 1000, g: 1000, b: 1000, a: 1000 }
}

/// The fixed light gray of the remaining ring samples.
pub open spec fn spec_light_gray() -> VertexColor {
    VertexColor { r: 784, g: 784, b: 784, a: 1000 }
}

/// The color of vertex `i` of a finger's block: within every ring the first
/// three samples are solid white and the rest light gray; the apex vertex
/// alone reads the gradient palette at the tip's chain position. The two
/// tiers intentionally do not match the ramp texture; they are a deliberate
/// highlight, not a sampling of it.
pub open spec fn spec_vertex_color_at(i: int) -> VertexColor {
    if i < 42 {
        if i % 7 < 3 {
            spec_white()
        } else {
            spec_light_gray()
        }
    } else {
        spec_joint_gradient_color(4)
    }
}

/// The vertex colors of one finger's 43-vertex block; the same for every
/// finger.
pub fn finger_vertex_colors() -> (colors: Vec<VertexColor>)
    ensures
        colors@.len() == 43,
        forall|i: int| 0 <= i < 43 ==> colors@[i] == spec_vertex_color_at(i),
{
    let mut colors: Vec<VertexColor> = Vec::new();
    let mut ring: usize = 0;
    // Five chain rings and the blunted-tip ring color identically.
    while ring < 6
        invariant
            ring <= 6,
            colors@.len() == 7 * ring,
            forall|i: int| 0 <= i < colors@.len() ==> colors@[i] == spec_vertex_color_at(i),
        decreases 6 - ring,
    {
        let mut v: usize = 0;
        while v < 7
            invariant
                v <= 7,
                ring < 6,
                colors@.len() == 7 * ring + v,
                forall|i: int| 0 <= i < colors@.len() ==> colors@[i] == spec_vertex_color_at(i),
            decreases 7 - v,
        {
            let ghost i = colors@.len() as int;
            if v < 3 {
                colors.push(VertexColor { r: 1000, g: 1000, b: 1000, a: 1000 });
            } else {
                colors.push(VertexColor { r: 784, g: 784, b: 784, a: 1000 });
            }
            proof {
                lemma_fundamental_div_mod_converse(i, 7, ring as int, v as int);
            }
            v = v + 1;
        }
        ring = ring + 1;
    }
    // The apex vertex reads the palette at the tip's chain position.
    colors.push(joint_gradient_color(FingerJoint::Tip));
    colors
}

} // verus!
