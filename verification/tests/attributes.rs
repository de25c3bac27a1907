use hand_mesh::attributes::{
    Uv, VertexColor, finger_uvs, finger_vertex_colors, joint_gradient_color,
};
use hand_mesh::fingers::{Finger, FingerJoint};
use hand_mesh::rings::{ring_angles_deg, ring_normal_angles_deg};

#[test]
fn ring_angle_tables() {
    assert_eq!(ring_angles_deg(), [162, 90, 18, 18, 306, 234, 162]);
    assert_eq!(ring_normal_angles_deg(), [126, 90, 54, 18, 306, 234, 162]);
}

#[test]
fn index_finger_uvs() {
    let uvs = finger_uvs(Finger::Index);
    assert_eq!(uvs.len(), 43);
    // One texel column per finger: x = 1/5 + 0.5/5 in hundredths.
    assert_eq!(uvs[0], Uv { x_centi: 30, y_centi: 100 });
    assert_eq!(uvs[7], Uv { x_centi: 30, y_centi: 56 });
    assert_eq!(uvs[14], Uv { x_centi: 30, y_centi: 31 });
    assert_eq!(uvs[21], Uv { x_centi: 30, y_centi: 15 });
    assert_eq!(uvs[28], Uv { x_centi: 30, y_centi: 4 });
    // The blunted-tip ring repeats the tip row.
    for i in 35..42 {
        assert_eq!(uvs[i], Uv { x_centi: 30, y_centi: 4 });
    }
    // The apex reads the top of the texture.
    assert_eq!(uvs[42], Uv { x_centi: 30, y_centi: 0 });
    // Rows are constant within a ring.
    for i in 0..35 {
        assert_eq!(uvs[i].y_centi, uvs[(i / 7) * 7].y_centi);
    }
}

#[test]
fn thumb_uvs_use_the_predecessor_rows() {
    let uvs = finger_uvs(Finger::Thumb);
    assert_eq!(uvs[0], Uv { x_centi: 10, y_centi: 100 });
    assert_eq!(uvs[7], Uv { x_centi: 10, y_centi: 100 });
    assert_eq!(uvs[14], Uv { x_centi: 10, y_centi: 56 });
    assert_eq!(uvs[21], Uv { x_centi: 10, y_centi: 31 });
    assert_eq!(uvs[28], Uv { x_centi: 10, y_centi: 15 });
    for i in 35..42 {
        assert_eq!(uvs[i], Uv { x_centi: 10, y_centi: 15 });
    }
    assert_eq!(uvs[42], Uv { x_centi: 10, y_centi: 0 });
}

#[test]
fn uv_columns_per_finger() {
    let fingers = [
        (Finger::Thumb, 10),
        (Finger::Index, 30),
        (Finger::Middle, 50),
        (Finger::Ring, 70),
        (Finger::Little, 90),
    ];
    for (f, x) in fingers.iter() {
        let uvs = finger_uvs(*f);
        for uv in uvs.iter() {
            assert_eq!(uv.x_centi, *x);
        }
    }
}

#[test]
fn vertex_colors_are_two_tier_with_a_palette_apex() {
    let colors = finger_vertex_colors();
    assert_eq!(colors.len(), 43);
    let white = VertexColor { r: 1000, g: 1000, b: 1000, a: 1000 };
    let gray = VertexColor { r: 784, g: 784, b: 784, a: 1000 };
    for i in 0..42 {
        if i % 7 < 3 {
            assert_eq!(colors[i], white);
        } else {
            assert_eq!(colors[i], gray);
        }
    }
    // The apex reads the palette at the end of the ramp: white, full alpha.
    assert_eq!(colors[42], white);
}

#[test]
fn joint_gradient_color_quantizes_the_palette() {
    // Chain start samples t = 0: 102 * 1000 / 255 = 400, alpha 0.
    assert_eq!(
        joint_gradient_color(FingerJoint::Metacarpal),
        VertexColor { r: 400, g: 400, b: 400, a: 0 }
    );
    // Chain position 2 samples t = 0.5: 153 + (51 * 300) / 450 = 187;
    // 187 * 1000 / 255 = 733. Alpha (255 * 300) / 450 = 170 -> 666.
    assert_eq!(
        joint_gradient_color(FingerJoint::Intermediate),
        VertexColor { r: 733, g: 733, b: 733, a: 666 }
    );
}
