//! Depth parameters.

use vstd::prelude::*;

use super::enums::ZSortType;

verus! {

/// Depth settings of a node.
#[derive(Clone, Copy, Debug, PartialEq, Eq, Structural)]
pub struct ParameterDepthValues {
    /// Depth offset.
    pub depth_offset: u32,
    /// Offset scales with the camera.
    pub is_depth_offset_scaled_with_camera: bool,
    /// Offset scales with the particle.
    pub is_depth_offset_scaled_with_particle_scale: bool,
    /// Suppression of scaling by depth.
    pub suppression_of_scaling_by_depth: u32,
    /// Depth clipping.
    pub depth_clipping: u32,
    /// Depth sorting.
    pub z_sort: ZSortType,
    /// Drawing priority.
    pub drawing_priority: i32,
    /// Soft particle distance.
    pub soft_particle: u32,
}

} // verus!
