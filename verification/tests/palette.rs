use hand_mesh::palette::{color_at, gradient_texture_bytes, lerp_color};

#[test]
fn color_at_ramp_start_is_dark_gray() {
    assert_eq!(color_at(0), [102, 102, 102, 0]);
}

#[test]
fn color_at_first_boundary_is_mid_gray() {
    // Both segment formulas agree here; the exec path takes the right one.
    assert_eq!(color_at(1200), [153, 153, 153, 0]);
}

#[test]
fn color_at_just_below_first_boundary() {
    // 102 + (51 * 1199) / 1200 truncates to 152.
    assert_eq!(color_at(1199), [152, 152, 152, 0]);
}

#[test]
fn color_at_second_boundary_is_light_gray() {
    assert_eq!(color_at(1650), [204, 204, 204, 255]);
}

#[test]
fn color_at_just_below_second_boundary() {
    // 153 + (51 * 449) / 450 = 203; alpha (255 * 449) / 450 = 254.
    assert_eq!(color_at(1649), [203, 203, 203, 254]);
}

#[test]
fn color_at_ramp_end_is_white() {
    assert_eq!(color_at(3000), [255, 255, 255, 255]);
}

#[test]
fn color_at_mid_third_segment() {
    // 204 + (51 * 675) / 1350 = 229.
    assert_eq!(color_at(2325), [229, 229, 229, 255]);
}

#[test]
fn color_at_luminance_never_drops() {
    let mut last: u32 = 0;
    let mut t: u32 = 0;
    while t <= 3000 {
        let c = color_at(t);
        let lum = c[0] as u32 + c[1] as u32 + c[2] as u32;
        assert!(lum >= last, "luminance dropped at t = {}", t);
        last = lum;
        t += 1;
    }
}

#[test]
fn lerp_color_truncates_toward_zero() {
    // 10 + (10 * 1) / 3 truncates to 13, never rounds to 14.
    assert_eq!(lerp_color([10, 0, 0, 0], [20, 30, 0, 0], 1, 3), [13, 10, 0, 0]);
}

#[test]
fn ramp_texture_rows_sample_the_palette() {
    let g = gradient_texture_bytes();
    assert_eq!(g.len(), 16 * 16 * 4);
    // Top row: t = 1, pure white at full alpha.
    for x in 0..16 {
        assert_eq!(&g[x * 4..x * 4 + 4], &[255, 255, 255, 255]);
    }
    // Bottom row: t = 0, dark gray at zero alpha.
    for x in 0..16 {
        let at = (15 * 16 + x) * 4;
        assert_eq!(&g[at..at + 4], &[102, 102, 102, 0]);
    }
    // Row 8 samples t = 1400/3000: 153 + (51*200)/450 = 175, alpha (255*200)/450 = 113.
    for x in 0..16 {
        let at = (8 * 16 + x) * 4;
        assert_eq!(&g[at..at + 4], &[175, 175, 175, 113]);
    }
    // Every row is constant, and each row is no brighter than the one above.
    for y in 0..16 {
        let row = &g[y * 64..y * 64 + 4];
        for x in 0..16 {
            assert_eq!(&g[(y * 16 + x) * 4..(y * 16 + x) * 4 + 4], row);
        }
        if y > 0 {
            let above = &g[(y - 1) * 64..(y - 1) * 64 + 4];
            assert!(row[0] <= above[0] && row[3] <= above[3]);
        }
    }
}
