//! Procedural meshes, an orbit camera and view state for a small 3D viewer.
//!
//! Geometry lives on an integer lattice: one world unit is
//! [`geometry::UNITS_PER_WORLD`] lattice steps, and normals are fixed-point
//! vectors whose unit length is [`geometry::NORMAL_SCALE`].
use vstd::prelude::*;

pub mod geometry;
pub mod mesh;
pub mod model;
pub mod random;
pub mod camera;
pub mod projection;
pub mod state;

verus! {

} // verus!
