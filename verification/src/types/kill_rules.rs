//! Kill rules.

use vstd::prelude::*;

use super::enums::KillType;
use super::primitives::Vector3D;

verus! {

/// Volume of a kill rule.
#[derive(Clone, Copy, Debug, PartialEq, Eq, Structural)]
pub enum KillTypeParams {
    /// No volume.
    NoVolume,
    /// A box.
    Box {
        /// Center.
        center: Vector3D,
        /// Size.
        size: Vector3D,
        /// Kill inside rather than outside.
        is_kill_inside: bool,
    },
    /// A plane.
    Plane {
        /// Plane normal.
        plane_axis: Vector3D,
        /// Plane offset.
        plane_offset: u32,
    },
    /// A sphere.
    Sphere {
        /// Center.
        center: Vector3D,
        /// Radius.
        radius: u32,
        /// Kill inside rather than outside.
        is_kill_inside: bool,
    },
}

/// Kill rules of a node.
#[derive(Clone, Copy, Debug, PartialEq, Eq, Structural)]
pub struct KillRulesParameter {
    /// Kind of volume.
    pub kill_type: KillType,
    /// The volume follows scale and rotation.
    pub is_scale_and_rotation_applied: bool,
    /// The volume.
    pub params: KillTypeParams,
}

} // verus!
