//! Collision parameter parser.

use vstd::prelude::*;

use crate::config::ParseConfig;
use crate::error::Error;
use crate::reader::{chain, pr, sp_bool, sp_enum, sp_random_float, sp_u32, BinaryReader, PR};
use crate::types::collision::CollisionsParameter;
use crate::types::enums::WorldCoordinateSystemType;
use crate::types::primitives::RandomFloat;

verus! {

/// The zero random float.
pub open spec fn spec_zero_random() -> RandomFloat {
    RandomFloat { max: 0, min: 0 }
}

/// Collision settings of files without collisions: everything off and zero.
pub open spec fn spec_default_collisions() -> CollisionsParameter {
    CollisionsParameter {
        is_ground_collision_enabled: false,
        is_scene_collision_with_external: false,
        bounce: spec_zero_random(),
        height: 0,
        friction: spec_zero_random(),
        lifetime_reduction_per_collision: spec_zero_random(),
        world_coordinate_system: WorldCoordinateSystemType::Local,
    }
}

/// Collisions of version 1801 and later.
pub open spec fn sp_collisions_v1801(d: Seq<u8>, p: int, cfg: ParseConfig) -> PR<CollisionsParameter> {
    chain(sp_bool(d, p), |is_ground_collision_enabled: bool, p: int|
    chain(sp_bool(d, p), |is_scene_collision_with_external: bool, p: int|
    chain(sp_random_float(d, p), |bounce: RandomFloat, p: int|
    chain(sp_u32(d, p), |height: u32, p: int|
    chain(sp_random_float(d, p), |friction: RandomFloat, p: int|
    chain(sp_random_float(d, p), |lifetime_reduction_per_collision: RandomFloat, p: int|
    chain(sp_enum::<WorldCoordinateSystemType>(d, p, cfg, "Collisions.world_coordinate_system"), |world_coordinate_system: WorldCoordinateSystemType, p: int|
    Ok((CollisionsParameter {
        is_ground_collision_enabled,
        is_scene_collision_with_external,
        bounce,
        height,
        friction,
        lifetime_reduction_per_collision,
        world_coordinate_system,
    }, p)))))))))
}

/// Collisions of version 1800: one flag, a fixed bounce, height, coordinate system.
pub open spec fn sp_collisions_v1800(d: Seq<u8>, p: int, cfg: ParseConfig) -> PR<CollisionsParameter> {
    chain(sp_bool(d, p), |is_enabled: bool, p: int|
    chain(sp_u32(d, p), |bounce: u32, p: int|
    chain(sp_u32(d, p), |height: u32, p: int|
    chain(sp_enum::<WorldCoordinateSystemType>(d, p, cfg, "Collisions.world_coordinate_system"), |world_coordinate_system: WorldCoordinateSystemType, p: int|
    Ok((CollisionsParameter {
        is_ground_collision_enabled: is_enabled,
        is_scene_collision_with_external: false,
        bounce: RandomFloat { max: bounce, min: bounce },
        height,
        friction: spec_zero_random(),
        lifetime_reduction_per_collision: spec_zero_random(),
        world_coordinate_system,
    }, p))))))
}

/// Collision settings by version; before 1800 there are none.
pub open spec fn sp_collisions(d: Seq<u8>, p: int, version: i32, cfg: ParseConfig) -> PR<CollisionsParameter> {
    if version >= 1801 {
        sp_collisions_v1801(d, p, cfg)
    } else if version >= 1800 {
        sp_collisions_v1800(d, p, cfg)
    } else {
        Ok((spec_default_collisions(), p))
    }
}

fn zero_random() -> (r: RandomFloat)
    ensures
        r == spec_zero_random(),
{
    RandomFloat { max: 0, min: 0 }
}

fn parse_collisions_v1801(reader: &mut BinaryReader, config: &ParseConfig) -> (res: Result<CollisionsParameter, Error>)
    ensures
        final(reader).data() == old(reader).data(),
        final(reader).pos() >= old(reader).pos(),
        pr(res, final(reader).pos()) == sp_collisions_v1801(old(reader).data(), old(reader).pos(), *config),
{
    let is_ground_collision_enabled = reader.read_i32_as_bool()?;
    let is_scene_collision_with_external = reader.read_i32_as_bool()?;
    let bounce = reader.read_random_float()?;
    let height = reader.read_f32()?;
    let friction = reader.read_random_float()?;
    let lifetime_reduction_per_collision = reader.read_random_float()?;
    let world_coordinate_system: WorldCoordinateSystemType = reader.read_enum(config, "Collisions.world_coordinate_system")?;
    Ok(CollisionsParameter {
        is_ground_collision_enabled,
        is_scene_collision_with_external,
        bounce,
        height,
        friction,
        lifetime_reduction_per_collision,
        world_coordinate_system,
    })
}

/// Parse the collision settings of a node.
pub fn parse_collisions(reader: &mut BinaryReader, version: i32, config: &ParseConfig) -> (res: Result<CollisionsParameter, Error>)
    ensures
        final(reader).data() == old(reader).data(),
        final(reader).pos() >= old(reader).pos(),
        pr(res, final(reader).pos()) == sp_collisions(old(reader).data(), old(reader).pos(), version, *config),
{
    if version >= 1801 {
        parse_collisions_v1801(reader, config)
    } else if version >= 1800 {
        let is_enabled = reader.read_i32_as_bool()?;
        let bounce = reader.read_f32()?;
        let height = reader.read_f32()?;
        let world_coordinate_system: WorldCoordinateSystemType = reader.read_enum(config, "Collisions.world_coordinate_system")?;
        Ok(CollisionsParameter {
            is_ground_collision_enabled: is_enabled,
            is_scene_collision_with_external: false,
            bounce: RandomFloat { max: bounce, min: bounce },
            height,
            friction: zero_random(),
            lifetime_reduction_per_collision: zero_random(),
            world_coordinate_system,
        })
    } else {
        Ok(CollisionsParameter {
            is_ground_collision_enabled: false,
            is_scene_collision_with_external: false,
            bounce: zero_random(),
            height: 0,
            friction: zero_random(),
            lifetime_reduction_per_collision: zero_random(),
            world_coordinate_system: WorldCoordinateSystemType::Local,
        })
    }
}

} // verus!
