//! Common values of a node.

use vstd::prelude::*;

use super::enums::{BindType, GenerationTiming, TranslationParentBindType};
use super::primitives::{RandomFloat, RandomInt, RefMinMax, TriggerValues};

verus! {

/// Conditions under which an instance is removed (bit set).
#[derive(Clone, Copy, Debug, PartialEq, Eq, Structural)]
pub struct RemovalTiming {
    /// Bit 0: life extinct; bit 1: parent removed; bit 2: children extinct; bit 3: triggered.
    pub bits: u32,
}

/// How instances are generated.
#[derive(Clone, Copy, Debug, PartialEq, Eq, Structural)]
pub struct GenerationParameter {
    /// Equations for the interval.
    pub ref_eq_interval: RefMinMax,
    /// Equations for the offset.
    pub ref_eq_offset: RefMinMax,
    /// Equations for the burst count.
    pub ref_eq_burst: RefMinMax,
    /// Generation timing.
    pub type_: GenerationTiming,
    /// Interval between generations.
    pub interval: RandomFloat,
    /// Delay before the first generation.
    pub offset: RandomFloat,
    /// Instances per generation.
    pub burst: RandomInt,
    /// Trigger that starts generation.
    pub trigger_to_start: TriggerValues,
    /// Trigger that stops generation.
    pub trigger_to_stop: TriggerValues,
    /// Trigger that generates once.
    pub trigger_to_generate: TriggerValues,
}

/// How instances are removed.
#[derive(Clone, Copy, Debug, PartialEq, Eq, Structural)]
pub struct RemovalParameter {
    /// Removal conditions.
    pub flags: RemovalTiming,
    /// Trigger that removes.
    pub trigger_to_remove: TriggerValues,
}

/// Parameters shared by all node kinds.
#[derive(Clone, Copy, Debug, PartialEq, Eq, Structural)]
pub struct ParameterCommonValues {
    /// Equation for the maximum generation count.
    pub ref_eq_max_generation: i32,
    /// Equations for the life.
    pub ref_eq_life: RefMinMax,
    /// Maximum number of generated instances.
    pub max_generation: i32,
    /// Translation inheritance.
    pub translation_bind_type: TranslationParentBindType,
    /// Rotation inheritance.
    pub rotation_bind_type: BindType,
    /// Scaling inheritance.
    pub scaling_bind_type: BindType,
    /// Life in frames.
    pub life: RandomInt,
    /// Generation.
    pub generation: GenerationParameter,
    /// Removal.
    pub removal: RemovalParameter,
}

} // verus!
