//! Gradient palette: a three-segment piecewise-linear color ramp.
//!
//! The ramp runs over a parameter `t` in `[0, 1]`, held in fixed point as a
//! numerator over [`T_ONE`]. The first segment fades dark gray to mid gray
//! with the alpha channel held at zero, the second mid gray to light gray
//! while alpha rises to full, the third light gray to white at full alpha.
//! Interpolation per channel is `a + (b - a) * factor`, truncated toward
//! zero when quantized to an 8-bit channel — never rounded. The startup
//! ramp texture and the per-vertex colors both sample this one function, so
//! they agree at shared `t` values.

use vstd::prelude::*;
use vstd::arithmetic::div_mod::{
    lemma_div_is_ordered, lemma_div_pos_is_pos, lemma_div_multiples_vanish,
    lemma_fundamental_div_mod_converse,
};
use vstd::arithmetic::mul::{lemma_mul_inequality, lemma_mul_nonnegative, lemma_mul_upper_bound};

verus! {

/// Fixed-point denominator for the ramp parameter: `t = num / T_ONE`.
pub const T_ONE: u32 = 3000;

/// End of the first ramp segment (`t = 0.4`).
pub const SEGMENT1_END: u32 = 1200;

/// End of the second ramp segment (`t = 0.55`).
pub const SEGMENT2_END: u32 = 1650;

/// Width and height of the baked ramp texture.
pub const RAMP_SIZE: usize = 16;

/// Linear interpolation of one 8-bit channel from `a` toward `b` by
/// `num / den`, truncated toward zero.
pub open spec fn spec_lerp_channel(a: int, b: int, num: int, den: int) -> int {
    a + ((b - a) * num) / den
}

/// First segment, extended over all of `t`: dark gray to mid gray, alpha
/// pinned at zero.
pub open spec fn spec_segment1_channel(t: int, ch: int) -> int {
    if ch == 3 {
        spec_lerp_channel(0, 0, t, 1200)
    } else {
        spec_lerp_channel(102, 153, t, 1200)
    }
}

/// Second segment, extended over all of `t`: mid gray to light gray, alpha
/// zero to full.
pub open spec fn spec_segment2_channel(t: int, ch: int) -> int {
    if ch == 3 {
        spec_lerp_channel(0, 255, t - 1200, 450)
    } else {
        spec_lerp_channel(153, 204, t - 1200, 450)
    }
}

/// Third segment, extended over all of `t`: light gray to white, alpha full.
pub open spec fn spec_segment3_channel(t: int, ch: int) -> int {
    if ch == 3 {
        spec_lerp_channel(255, 255, t - 1650, 1350)
    } else {
        spec_lerp_channel(204, 255, t - 1650, 1350)
    }
}

/// Channel `ch` (red, green, blue, alpha in that order) of the ramp color at
/// parameter `t`.
pub open spec fn spec_color_channel(t: int, ch: int) -> int {
    if t < 1200 {
        spec_segment1_channel(t, ch)
    } else if t < 1650 {
        spec_segment2_channel(t, ch)
    } else {
        spec_segment3_channel(t, ch)
    }
}

/// Sum of the three color channels; a stand-in for luminance, which any
/// nonnegative weighting of the channels would order the same way.
pub open spec fn spec_luminance(t: int) -> int {
    spec_color_channel(t, 0) + spec_color_channel(t, 1) + spec_color_channel(t, 2)
}

/// Truncating interpolation stays between its endpoints.
proof fn lemma_lerp_channel_bounds(a: int, b: int, num: int, den: int)
    requires
        0 <= a <= b,
        0 <= num <= den,
        0 < den,
    ensures
        a <= spec_lerp_channel(a, b, num, den) <= b,
{
    lemma_mul_nonnegative(b - a, num);
    lemma_div_pos_is_pos((b - a) * num, den);
    lemma_mul_inequality(num, den, b - a);
    lemma_div_is_ordered((b - a) * num, (b - a) * den, den);
    lemma_div_multiples_vanish(b - a, den);
}

/// Truncating interpolation is monotone in the numerator.
proof fn lemma_lerp_channel_monotone(a: int, b: int, n1: int, n2: int, den: int)
    requires
        a <= b,
        0 <= n1 <= n2,
        0 < den,
    ensures
        spec_lerp_channel(a, b, n1, den) <= spec_lerp_channel(a, b, n2, den),
{
    lemma_mul_inequality(n1, n2, b - a);
    lemma_div_is_ordered((b - a) * n1, (b - a) * n2, den);
}

/// At each breakpoint of the ramp, the segment to the left and the segment
/// to the right compute the same color: the palette is continuous at its
/// segment boundaries.
pub proof fn lemma_palette_boundary_agreement(ch: int)
    requires
        0 <= ch < 4,
    ensures
        spec_segment1_channel(1200, ch) == spec_segment2_channel(1200, ch),
        spec_segment2_channel(1650, ch) == spec_segment3_channel(1650, ch),
        spec_segment2_channel(1200, ch) == spec_color_channel(1200, ch),
        spec_segment3_channel(1650, ch) == spec_color_channel(1650, ch),
{
}

/// Every channel of the ramp color is non-decreasing in `t`; in particular
/// the luminance never drops as `t` grows.
pub proof fn lemma_palette_channel_monotone(t1: int, t2: int, ch: int)
    requires
        0 <= t1 <= t2 <= 3000,
        0 <= ch < 4,
    ensures
        spec_color_channel(t1, ch) <= spec_color_channel(t2, ch),
{
    if t1 < 1200 {
        lemma_lerp_channel_bounds(if ch == 3 { 0 } else { 102 }, if ch == 3 { 0 } else { 153 }, t1, 1200);
    } else if t1 < 1650 {
        lemma_lerp_channel_bounds(if ch == 3 { 0 } else { 153 }, if ch == 3 { 255 } else { 204 }, t1 - 1200, 450);
    } else {
        lemma_lerp_channel_bounds(if ch == 3 { 255 } else { 204 }, 255, t1 - 1650, 1350);
    }
    if t2 < 1200 {
        lemma_lerp_channel_bounds(if ch == 3 { 0 } else { 102 }, if ch == 3 { 0 } else { 153 }, t2, 1200);
    } else if t2 < 1650 {
        lemma_lerp_channel_bounds(if ch == 3 { 0 } else { 153 }, if ch == 3 { 255 } else { 204 }, t2 - 1200, 450);
    } else {
        lemma_lerp_channel_bounds(if ch == 3 { 255 } else { 204 }, 255, t2 - 1650, 1350);
    }
    if t1 < 1200 && t2 < 1200 {
        lemma_lerp_channel_monotone(if ch == 3 { 0 } else { 102 }, if ch == 3 { 0 } else { 153 }, t1, t2, 1200);
    } else if 1200 <= t1 && t1 < 1650 && 1200 <= t2 && t2 < 1650 {
        lemma_lerp_channel_monotone(if ch == 3 { 0 } else { 153 }, if ch == 3 { 255 } else { 204 }, t1 - 1200, t2 - 1200, 450);
    } else if 1650 <= t1 && 1650 <= t2 {
        lemma_lerp_channel_monotone(if ch == 3 { 255 } else { 204 }, 255, t1 - 1650, t2 - 1650, 1350);
    }
}

/// The luminance of the ramp color is non-decreasing in `t`.
pub proof fn lemma_palette_luminance_monotone(t1: int, t2: int)
    requires
        0 <= t1 <= t2 <= 3000,
    ensures
        spec_luminance(t1) <= spec_luminance(t2),
{
    lemma_palette_channel_monotone(t1, t2, 0);
    lemma_palette_channel_monotone(t1, t2, 1);
    lemma_palette_channel_monotone(t1, t2, 2);
}

/// One channel of the truncating interpolation.
fn lerp_channel(a: u8, b: u8, num: u32, den: u32) -> (c: u8)
    requires
        0 < den,
        num <= den,
        a <= b,
    ensures
        c == spec_lerp_channel(a as int, b as int, num as int, den as int),
        a <= c <= b,
{
    let diff = (b - a) as u64;
    proof {
        lemma_mul_upper_bound(diff as int, 255, num as int, 0xffff_ffff);
        lemma_mul_nonnegative(diff as int, num as int);
        lemma_div_pos_is_pos(diff as int * num as int, den as int);
        lemma_mul_inequality(num as int, den as int, diff as int);
        lemma_div_is_ordered(diff as int * num as int, diff as int * den as int, den as int);
        lemma_div_multiples_vanish(diff as int, den as int);
    }
    let add = diff * (num as u64) / (den as u64);
    a + (add as u8)
}

/// Per-channel truncating interpolation from color `a` toward color `b` by
/// `num / den`.
pub fn lerp_color(a: [u8; 4], b: [u8; 4], num: u32, den: u32) -> (c: [u8; 4])
    requires
        0 < den,
        num <= den,
        forall|ch: int| 0 <= ch < 4 ==> a@[ch] <= b@[ch],
    ensures
        forall|ch: int| 0 <= ch < 4 ==> c@[ch]
            == spec_lerp_channel(a@[ch] as int, b@[ch] as int, num as int, den as int),
{
    let c0 = lerp_channel(a[0], b[0], num, den);
    let c1 = lerp_channel(a[1], b[1], num, den);
    let c2 = lerp_channel(a[2], b[2], num, den);
    let c3 = lerp_channel(a[3], b[3], num, den);
    let c = [c0, c1, c2, c3];
    proof {
        assert(forall|ch: int| 0 <= ch < 4 ==> c@[ch]
            == spec_lerp_channel(a@[ch] as int, b@[ch] as int, num as int, den as int)) by {
            assert(c@[0] == c0 && c@[1] == c1 && c@[2] == c2 && c@[3] == c3);
        }
    }
    c
}

/// The ramp color at parameter `t / T_ONE`, channels in red, green, blue,
/// alpha order.
pub fn color_at(t: u32) -> (c: [u8; 4])
    requires
        t <= T_ONE,
    ensures
        forall|ch: int| 0 <= ch < 4 ==> c@[ch] == spec_color_channel(t as int, ch),
{
    if t < SEGMENT1_END {
        lerp_color([102, 102, 102, 0], [153, 153, 153, 0], t, 1200)
    } else if t < SEGMENT2_END {
        lerp_color([153, 153, 153, 0], [204, 204, 204, 255], t - 1200, 450)
    } else {
        lerp_color([204, 204, 204, 255], [255, 255, 255, 255], t - 1650, 1350)
    }
}

/// Fixed-point ramp parameter of texture row `y`: the top row samples the
/// bright end of the ramp, the bottom row the dark end.
pub open spec fn spec_ramp_row_t(y: int) -> int {
    3000 - 200 * y
}

/// The 16-by-16 RGBA ramp texture, baked once at startup: each row holds a
/// constant color sampled from the ramp, replicated across the row.
pub fn gradient_texture_bytes() -> (g: Vec<u8>)
    ensures
        g@.len() == RAMP_SIZE * RAMP_SIZE * 4,
        forall|i: int| 0 <= i < g@.len()
            ==> g@[i] == spec_color_channel(spec_ramp_row_t(i / 64), i % 4),
{
    let mut g: Vec<u8> = Vec::new();
    let mut y: usize = 0;
    while y < 16
        invariant
            y <= 16,
            g@.len() == 64 * y,
            forall|i: int| 0 <= i < g@.len() ==> g@[i] == spec_color_channel(spec_ramp_row_t(i / 64), i % 4),
        decreases 16 - y,
    {
        let t = T_ONE - 200 * (y as u32);
        let color = color_at(t);
        let mut x: usize = 0;
        while x < 16
            invariant
                x <= 16,
                y < 16,
                t == 3000 - 200 * y,
                forall|ch: int| 0 <= ch < 4 ==> color@[ch] == spec_color_channel(t as int, ch),
                g@.len() == 64 * y + 4 * x,
                forall|i: int| 0 <= i < g@.len() ==> g@[i] == spec_color_channel(spec_ramp_row_t(i / 64), i % 4),
            decreases 16 - x,
        {
            let ghost old_len = g@.len() as int;
            g.push(color[0]);
            g.push(color[1]);
            g.push(color[2]);
            g.push(color[3]);
            proof {
                assert forall|i: int| 0 <= i < g@.len() implies
                    g@[i] == spec_color_channel(spec_ramp_row_t(i / 64), i % 4) by {
                    if i >= old_len {
                        let ch = i - old_len;
                        lemma_fundamental_div_mod_converse(i, 64, y as int, 4 * (x as int) + ch);
                        lemma_fundamental_div_mod_converse(i, 4, 16 * (y as int) + x as int, ch);
                        assert(g@[i] == color@[ch]);
                    }
                }
            }
            x = x + 1;
        }
        y = y + 1;
    }
    g
}

/// The flat byte offset of channel `ch` of texel `(x, y)` of the ramp
/// texture, and how the row and channel are read back off it.
pub proof fn lemma_ramp_texel_offset(y: int, x: int, ch: int)
    requires
        0 <= y < 16,
        0 <= x < 16,
        0 <= ch < 4,
    ensures
        0 <= (y * 16 + x) * 4 + ch < 1024,
        ((y * 16 + x) * 4 + ch) / 64 == y,
        ((y * 16 + x) * 4 + ch) % 4 == ch,
{
    let i = (y * 16 + x) * 4 + ch;
    lemma_fundamental_div_mod_converse(i, 64, y, 4 * x + ch);
    lemma_fundamental_div_mod_converse(i, 4, 16 * y + x, ch);
}

} // verus!

