//! Procedural hand-mesh generation.
//!
//! A believable 3D hand is rendered by synthesizing a triangulated tube mesh
//! every frame from a sparse skeletal pose: per-finger ring sampling along a
//! joint chain, fingertip capping, a stable triangle-topology scheme that
//! renumbers itself when fingers drop out of tracking, and pose-independent
//! attribute tables (UV coordinates, vertex colors, a gradient palette) kept
//! separate from the pose-dependent hot path.
//!
//! Everything that is exact — the joint-chain model, the triangle topology,
//! the palette and attribute tables, the per-vertex build plan, and the
//! finger-selection and slot-assignment logic — lives here with full
//! contracts. The pose-dependent arithmetic itself (quaternion blending,
//! trigonometry) works on real-valued poses supplied by a tracking subsystem
//! and is carried out by the rendering host, driven by the per-vertex plan
//! this crate produces and proves correct.

pub mod assemble;
pub mod attributes;
pub mod fingers;
pub mod palette;
pub mod plan;
pub mod rings;
pub mod topology;
pub mod winding;
