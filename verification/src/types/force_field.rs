//! Local force fields.

use vstd::prelude::*;

use super::enums::{ForceFieldTurbulenceType, ForceFieldVortexType, LocalForceFieldFalloffType, LocalForceFieldType};
use super::primitives::Vector3D;

verus! {

/// Tube falloff.
#[derive(Clone, Copy, Debug, PartialEq, Eq, Structural)]
pub struct TubeFalloff {
    /// Power.
    pub radius_power: u32,
    /// Maximum radius.
    pub max_radius: u32,
    /// Minimum radius.
    pub min_radius: u32,
}

/// Cone falloff.
#[derive(Clone, Copy, Debug, PartialEq, Eq, Structural)]
pub struct ConeFalloff {
    /// Power.
    pub angle_power: u32,
    /// Maximum angle.
    pub max_angle: u32,
    /// Minimum angle.
    pub min_angle: u32,
}

/// Falloff of a force field.
#[derive(Clone, Copy, Debug, PartialEq, Eq, Structural)]
pub struct ForceFieldFalloff {
    /// Shape.
    pub falloff_type: LocalForceFieldFalloffType,
    /// Power.
    pub power: u32,
    /// Maximum distance.
    pub max_distance: u32,
    /// Minimum distance.
    pub min_distance: u32,
    /// Tube data.
    pub tube: Option<TubeFalloff>,
    /// Cone data.
    pub cone: Option<ConeFalloff>,
}

/// Kind-specific force field data.
#[derive(Clone, Copy, Debug, PartialEq, Eq, Structural)]
pub enum ForceFieldTypeParams {
    /// No field.
    NoField,
    /// A force.
    Force {
        /// Attraction rather than repulsion.
        gravitation: bool,
    },
    /// Wind.
    Wind,
    /// A vortex.
    Vortex {
        /// Kind of vortex (v1601+).
        vortex_type: Option<ForceFieldVortexType>,
    },
    /// Turbulence.
    Turbulence {
        /// Kind of turbulence.
        turbulence_type: ForceFieldTurbulenceType,
        /// Seed.
        seed: i32,
        /// Scale.
        scale: u32,
        /// Strength.
        strength: u32,
        /// Octaves.
        octave: i32,
    },
    /// Drag.
    Drag,
    /// Gravity.
    Gravity {
        /// Gravity vector.
        gravity: Vector3D,
    },
    /// Attraction to a target.
    AttractiveForce {
        /// Force.
        force: u32,
        /// Control.
        control: u32,
        /// Minimum range.
        min_range: u32,
        /// Maximum range.
        max_range: u32,
    },
}

/// One local force field.
#[derive(Clone, Copy, Debug, PartialEq, Eq, Structural)]
pub struct LocalForceFieldElement {
    /// Kind.
    pub field_type: LocalForceFieldType,
    /// Power.
    pub power: u32,
    /// Position.
    pub position: Vector3D,
    /// Rotation.
    pub rotation: Vector3D,
    /// Kind-specific data.
    pub type_params: ForceFieldTypeParams,
    /// Falloff.
    pub falloff: Option<ForceFieldFalloff>,
}

} // verus!
