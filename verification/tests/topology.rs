use hand_mesh::topology::{end_vert, finger_indices, start_vert, vertex_count};

#[test]
fn block_bounds() {
    assert_eq!(vertex_count(), 43);
    assert_eq!(start_vert(0), 0);
    assert_eq!(start_vert(3), 129);
    assert_eq!(end_vert(0), 42);
    assert_eq!(end_vert(4), 214);
}

#[test]
fn indices_of_slot_zero() {
    let idx = finger_indices(0);
    assert_eq!(idx.len(), 204);
    // Base cap.
    assert_eq!(&idx[0..9], &[5, 4, 6, 4, 3, 6, 2, 1, 0]);
    // First tube quad: transition 0, sample pair 0.
    assert_eq!(&idx[9..15], &[1, 8, 0, 8, 7, 0]);
    // Second tube quad: transition 0, sample pair 1.
    assert_eq!(&idx[15..21], &[2, 9, 1, 9, 8, 1]);
    // Last tube quad: transition 4, sample pair 5.
    assert_eq!(&idx[183..189], &[34, 41, 33, 41, 40, 33]);
    // Tip cap.
    assert_eq!(
        &idx[189..204],
        &[40, 41, 42, 39, 40, 42, 38, 39, 42, 36, 37, 42, 35, 36, 42]
    );
    for &i in idx.iter() {
        assert!(i < 43);
    }
}

#[test]
fn indices_shift_with_the_slot() {
    let base = finger_indices(0);
    let shifted = finger_indices(2);
    assert_eq!(shifted.len(), 204);
    for i in 0..204 {
        assert_eq!(shifted[i], base[i] + 86);
    }
}

/// The same list, built the long way round: caps and quads pushed in
/// tip-to-base order, then the whole list re-read in reversed triangle
/// chunks.
fn oracle_indices(slot: u16) -> Vec<u16> {
    let start_vert = slot * 43;
    let end_vert = start_vert + 42 - 7;
    let mut indices: Vec<u16> = Vec::new();
    indices.extend_from_slice(&[
        end_vert,
        end_vert + 1,
        end_vert + 7,
        end_vert + 1,
        end_vert + 2,
        end_vert + 7,
        end_vert + 3,
        end_vert + 4,
        end_vert + 7,
        end_vert + 4,
        end_vert + 5,
        end_vert + 7,
        end_vert + 5,
        end_vert + 6,
        end_vert + 7,
    ]);
    for joint in (0..5u16).rev() {
        for ring in (0..7u16).rev() {
            let curr1 = start_vert + (joint * 7 + ring);
            let next1 = start_vert + (joint + 1) * 7 + ring;
            let curr2 = start_vert + (joint * 7 + (ring + 1));
            let next2 = start_vert + (joint + 1) * 7 + (ring + 1);
            if ring == 6 {
                continue;
            }
            indices.extend_from_slice(&[next2, next1, curr1, curr2, next2, curr1]);
        }
    }
    indices.extend_from_slice(&[
        start_vert + 2,
        start_vert + 1,
        start_vert,
        start_vert + 4,
        start_vert + 3,
        start_vert + 6,
        start_vert + 5,
        start_vert + 4,
        start_vert + 6,
    ]);
    indices.chunks(3).rev().flatten().copied().collect()
}

#[test]
fn indices_match_the_chunk_reversed_construction() {
    for slot in 0..5 {
        assert_eq!(finger_indices(slot), oracle_indices(slot as u16));
    }
}

#[test]
fn every_vertex_of_the_block_is_referenced() {
    let idx = finger_indices(0);
    let mut seen = [false; 43];
    for &i in idx.iter() {
        seen[i as usize] = true;
    }
    assert!(seen.iter().all(|&s| s));
}

#[test]
fn no_directed_edge_is_used_twice() {
    // The executable shadow of the winding law: every one of the 204
    // directed edges across the 68 triangles is distinct.
    let idx = finger_indices(0);
    let mut edges: Vec<(u16, u16)> = Vec::new();
    for tri in idx.chunks(3) {
        edges.push((tri[0], tri[1]));
        edges.push((tri[1], tri[2]));
        edges.push((tri[2], tri[0]));
    }
    for a in 0..edges.len() {
        for b in 0..a {
            assert_ne!(edges[a], edges[b]);
        }
    }
}
