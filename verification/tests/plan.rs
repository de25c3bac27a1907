use hand_mesh::fingers::Finger;
use hand_mesh::plan::{VertexKind, finger_vertex_plan};

#[test]
fn index_finger_plan_shape() {
    let plan = finger_vertex_plan(Finger::Index);
    assert_eq!(plan.len(), 43);
    // Ring vertices, seven per chain joint, bones 6 through 10.
    for i in 0..35 {
        let step = plan[i];
        assert_eq!(step.kind, VertexKind::Ring);
        assert_eq!(step.bone, 6 + i / 7);
        assert_eq!(step.prev_bone, if i < 7 { 6 } else { 5 + i / 7 });
        assert_eq!(step.ring_sample, i % 7);
        assert!(!step.half_radius);
    }
    // The blunted-tip ring is anchored to the tip pose.
    for i in 35..42 {
        let step = plan[i];
        assert_eq!(step.kind, VertexKind::TipRing);
        assert_eq!(step.bone, 10);
        assert_eq!(step.prev_bone, 9);
        assert_eq!(step.ring_sample, i - 35);
        assert!(!step.skew && !step.half_radius);
    }
    let apex = plan[42];
    assert_eq!(apex.kind, VertexKind::Apex);
    assert_eq!(apex.bone, 10);
    assert_eq!(apex.prev_bone, 9);
}

#[test]
fn skew_applies_only_at_interior_joints() {
    let plan = finger_vertex_plan(Finger::Index);
    // Metacarpal, proximal, intermediate, distal, tip, in ring order.
    let skew_by_joint: Vec<bool> = (0..5).map(|c| plan[c * 7].skew).collect();
    assert_eq!(skew_by_joint, vec![false, true, true, false, false]);
}

#[test]
fn thumb_plan_is_irregular() {
    let plan = finger_vertex_plan(Finger::Thumb);
    // The thumb's chain starts at the wrist.
    assert_eq!(plan[0].bone, 1);
    assert_eq!(plan[0].prev_bone, 1);
    assert_eq!(plan[7].bone, 2);
    assert_eq!(plan[7].prev_bone, 1);
    assert_eq!(plan[28].bone, 5);
    // Its proximal joint is excluded from the skew correction...
    let skew_by_joint: Vec<bool> = (0..5).map(|c| plan[c * 7].skew).collect();
    assert_eq!(skew_by_joint, vec![false, false, true, false, false]);
    // ...and its two base joints draw at half radius.
    let half_by_joint: Vec<bool> = (0..5).map(|c| plan[c * 7].half_radius).collect();
    assert_eq!(half_by_joint, vec![true, true, false, false, false]);
    for i in 35..43 {
        assert_eq!(plan[i].bone, 5);
        assert_eq!(plan[i].prev_bone, 4);
    }
}
