//! Collisions.

use vstd::prelude::*;

use super::enums::WorldCoordinateSystemType;
use super::primitives::RandomFloat;

verus! {

/// Collision settings of a node.
#[derive(Clone, Copy, Debug, PartialEq, Eq, Structural)]
pub struct CollisionsParameter {
    /// Ground collision.
    pub is_ground_collision_enabled: bool,
    /// Scene collision.
    pub is_scene_collision_with_external: bool,
    /// Bounce.
    pub bounce: RandomFloat,
    /// Ground height.
    pub height: u32,
    /// Friction.
    pub friction: RandomFloat,
    /// Life lost per collision.
    pub lifetime_reduction_per_collision: RandomFloat,
    /// Coordinate system.
    pub world_coordinate_system: WorldCoordinateSystemType,
}

} // verus!
