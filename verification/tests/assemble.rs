use hand_mesh::assemble::{JointFlags, MeshStore, assemble, update_hand_mesh};
use hand_mesh::fingers::Finger;

fn all_tracked() -> [JointFlags; 26] {
    [JointFlags { position_tracked: true, rotation_tracked: true }; 26]
}

fn none_tracked() -> [JointFlags; 26] {
    [JointFlags { position_tracked: false, rotation_tracked: false }; 26]
}

/// Tip bones in assembly order: little, ring, middle, index, thumb.
const TIP_BONES: [usize; 5] = [25, 20, 15, 10, 5];

#[test]
fn five_tracked_fingers_fill_five_slots() {
    let plan = assemble(&all_tracked()).expect("five tracked fingers must build");
    assert_eq!(
        plan.fingers,
        vec![Finger::Little, Finger::Ring, Finger::Middle, Finger::Index, Finger::Thumb]
    );
    assert_eq!(plan.vertices.len(), 215);
    assert_eq!(plan.uvs.len(), 215);
    assert_eq!(plan.colors.len(), 215);
    assert_eq!(plan.indices.len(), 1020);
    for &i in plan.indices.iter() {
        assert!((i as usize) < 215);
    }
}

#[test]
fn a_lost_thumb_renumbers_the_rest_contiguously() {
    let mut flags = all_tracked();
    flags[5].position_tracked = false; // thumb tip
    let plan = assemble(&flags).expect("four tracked fingers must build");
    assert_eq!(
        plan.fingers,
        vec![Finger::Little, Finger::Ring, Finger::Middle, Finger::Index]
    );
    assert_eq!(plan.vertices.len(), 4 * 43);
    assert_eq!(plan.indices.len(), 4 * 204);
    for &i in plan.indices.iter() {
        assert!((i as usize) < 4 * 43);
    }
    // Each kept finger's block starts at slot * 43, with no gap where the
    // thumb's block would have been.
    let base = hand_mesh::topology::finger_indices(0);
    for s in 0..4 {
        for i in 0..204 {
            assert_eq!(plan.indices[s * 204 + i], base[i] + (s as u16) * 43);
        }
    }
}

#[test]
fn a_middle_drop_renumbers_too() {
    let mut flags = all_tracked();
    flags[15].rotation_tracked = false; // middle tip
    let plan = assemble(&flags).expect("four tracked fingers must build");
    assert_eq!(
        plan.fingers,
        vec![Finger::Little, Finger::Ring, Finger::Index, Finger::Thumb]
    );
    assert_eq!(plan.vertices.len(), 172);
}

#[test]
fn one_flag_alone_is_not_enough() {
    for &tip in TIP_BONES.iter() {
        let mut flags = none_tracked();
        flags[tip].position_tracked = true;
        assert!(assemble(&flags).is_none());
        flags[tip].position_tracked = false;
        flags[tip].rotation_tracked = true;
        assert!(assemble(&flags).is_none());
        flags[tip].position_tracked = true;
        let plan = assemble(&flags).expect("both flags set must build");
        assert_eq!(plan.fingers.len(), 1);
        assert_eq!(plan.vertices.len(), 43);
        assert_eq!(plan.indices.len(), 204);
    }
}

#[test]
fn no_tracked_fingers_builds_nothing() {
    assert!(assemble(&none_tracked()).is_none());
}

#[test]
fn losing_all_fingers_keeps_the_previous_mesh_bit_identical() {
    let mut store = MeshStore::new();
    assert!(store.current.is_none());

    update_hand_mesh(&mut store, &all_tracked());
    let (fingers, vertices, uvs, colors, indices) = {
        let p = store.current.as_ref().expect("first frame publishes");
        (
            p.fingers.clone(),
            p.vertices.clone(),
            p.uvs.clone(),
            p.colors.clone(),
            p.indices.clone(),
        )
    };
    assert_eq!(vertices.len(), 215);

    update_hand_mesh(&mut store, &none_tracked());
    let p = store.current.as_ref().expect("previous mesh must stand");
    assert_eq!(p.fingers, fingers);
    assert_eq!(p.vertices, vertices);
    assert_eq!(p.uvs, uvs);
    assert_eq!(p.colors, colors);
    assert_eq!(p.indices, indices);
}

#[test]
fn losing_one_finger_mid_stream_rebuilds_smaller() {
    let mut store = MeshStore::new();
    update_hand_mesh(&mut store, &all_tracked());
    assert_eq!(store.current.as_ref().unwrap().vertices.len(), 215);

    let mut flags = all_tracked();
    flags[5].rotation_tracked = false; // thumb tip
    update_hand_mesh(&mut store, &flags);
    let p = store.current.as_ref().unwrap();
    assert_eq!(p.vertices.len(), 172);
    assert_eq!(p.indices.len(), 816);
    assert_eq!(p.fingers.len(), 4);
}
