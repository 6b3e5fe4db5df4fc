//! Spawn location parser.

use vstd::prelude::*;

use crate::config::ParseConfig;
use crate::error::Error;
use crate::reader::{chain, pr, sp_bool, sp_enum, sp_i32, sp_random_float, sp_random_vector3d, BinaryReader, PR};
use crate::types::enums::{
    CircleDistributionType, GenerationLocationType, LineDistributionType, ModelCoordinateSpace,
    ModelReferenceType, ModelSpawnType, SpawnAxisType,
};
use crate::types::params::SpawnLocationParameter;
use crate::types::primitives::{RandomFloat, RandomVector3D};

verus! {

/// A model spawn location: reference kind (from version 1602, else `File`),
/// index, spawn type, coordinate space (from version 1802).
pub open spec fn sp_spawn_model(d: Seq<u8>, p: int, version: i32, cfg: ParseConfig) -> PR<SpawnLocationParameter> {
    chain(
        if version >= 1602 {
            sp_enum::<ModelReferenceType>(d, p, cfg, "SpawnLocation.Model.reference")
        } else {
            Ok((ModelReferenceType::File, p))
        },
        |reference: ModelReferenceType, p: int|
    chain(sp_i32(d, p), |index: i32, p: int|
    chain(sp_enum::<ModelSpawnType>(d, p, cfg, "SpawnLocation.Model.spawn_type"), |spawn_type: ModelSpawnType, p: int|
    chain(
        if version >= 1802 {
            chain(sp_enum::<ModelCoordinateSpace>(d, p, cfg, "SpawnLocation.Model.coordinate"),
                |c: ModelCoordinateSpace, p: int| Ok((Some(c), p)))
        } else {
            Ok((None, p))
        },
        |coordinate: Option<ModelCoordinateSpace>, p: int|
    Ok((SpawnLocationParameter::Model { reference, index, spawn_type, coordinate }, p))))))
}

/// A circle spawn location.
pub open spec fn sp_spawn_circle(d: Seq<u8>, p: int, cfg: ParseConfig) -> PR<SpawnLocationParameter> {
    chain(sp_i32(d, p), |division: i32, p: int|
    chain(sp_random_float(d, p), |radius: RandomFloat, p: int|
    chain(sp_random_float(d, p), |angle_start: RandomFloat, p: int|
    chain(sp_random_float(d, p), |angle_end: RandomFloat, p: int|
    chain(sp_enum::<CircleDistributionType>(d, p, cfg, "SpawnLocation.Circle.distribution_type"), |distribution_type: CircleDistributionType, p: int|
    chain(sp_enum::<SpawnAxisType>(d, p, cfg, "SpawnLocation.Circle.axis_direction"), |axis_direction: SpawnAxisType, p: int|
    chain(sp_random_float(d, p), |angle_noise: RandomFloat, p: int|
    Ok((SpawnLocationParameter::Circle {
        division,
        radius,
        angle_start,
        angle_end,
        distribution_type,
        axis_direction,
        angle_noise,
    }, p)))))))))
}

/// A line spawn location.
pub open spec fn sp_spawn_line(d: Seq<u8>, p: int, cfg: ParseConfig) -> PR<SpawnLocationParameter> {
    chain(sp_i32(d, p), |division: i32, p: int|
    chain(sp_random_vector3d(d, p), |position_start: RandomVector3D, p: int|
    chain(sp_random_vector3d(d, p), |position_end: RandomVector3D, p: int|
    chain(sp_random_float(d, p), |position_noise: RandomFloat, p: int|
    chain(sp_enum::<LineDistributionType>(d, p, cfg, "SpawnLocation.Line.distribution_type"), |distribution_type: LineDistributionType, p: int|
    Ok((SpawnLocationParameter::Line { division, position_start, position_end, position_noise, distribution_type }, p)))))))
}

/// The location data of a kind. An unknown kind (accepted under the lenient
/// policy) is read as a point.
pub open spec fn sp_spawn_kind(d: Seq<u8>, p: int, version: i32, cfg: ParseConfig, t: GenerationLocationType) -> PR<SpawnLocationParameter> {
    match t {
        GenerationLocationType::Sphere =>
            chain(sp_random_float(d, p), |radius: RandomFloat, p: int|
            chain(sp_random_float(d, p), |rotation_x: RandomFloat, p: int|
            chain(sp_random_float(d, p), |rotation_y: RandomFloat, p: int|
            Ok((SpawnLocationParameter::Sphere { radius, rotation_x, rotation_y }, p))))),
        GenerationLocationType::Model => sp_spawn_model(d, p, version, cfg),
        GenerationLocationType::Circle => sp_spawn_circle(d, p, cfg),
        GenerationLocationType::Line => sp_spawn_line(d, p, cfg),
        _ => chain(sp_random_vector3d(d, p), |location: RandomVector3D, p: int|
            Ok((SpawnLocationParameter::Point { location }, p))),
    }
}

/// A spawn location: whether it affects rotation, the kind, the kind's data.
pub open spec fn sp_spawn_location(d: Seq<u8>, p: int, version: i32, cfg: ParseConfig) -> PR<(bool, SpawnLocationParameter)> {
    chain(sp_bool(d, p), |effects_rotation: bool, p: int|
    chain(sp_enum::<GenerationLocationType>(d, p, cfg, "SpawnLocation.type"), |t: GenerationLocationType, p: int|
    chain(sp_spawn_kind(d, p, version, cfg, t), |param: SpawnLocationParameter, p: int|
    Ok(((effects_rotation, param), p)))))
}

fn parse_spawn_model(reader: &mut BinaryReader, version: i32, config: &ParseConfig) -> (res: Result<SpawnLocationParameter, Error>)
    ensures
        final(reader).data() == old(reader).data(),
        final(reader).pos() >= old(reader).pos(),
        pr(res, final(reader).pos()) == sp_spawn_model(old(reader).data(), old(reader).pos(), version, *config),
{
    let reference = if version >= 1602 {
        reader.read_enum::<ModelReferenceType>(config, "SpawnLocation.Model.reference")?
    } else {
        ModelReferenceType::File
    };
    let index = reader.read_i32()?;
    let spawn_type: ModelSpawnType = reader.read_enum(config, "SpawnLocation.Model.spawn_type")?;
    let coordinate = if version >= 1802 {
        Some(reader.read_enum::<ModelCoordinateSpace>(config, "SpawnLocation.Model.coordinate")?)
    } else {
        None
    };
    Ok(SpawnLocationParameter::Model { reference, index, spawn_type, coordinate })
}

fn parse_spawn_circle(reader: &mut BinaryReader, config: &ParseConfig) -> (res: Result<SpawnLocationParameter, Error>)
    ensures
        final(reader).data() == old(reader).data(),
        final(reader).pos() >= old(reader).pos(),
        pr(res, final(reader).pos()) == sp_spawn_circle(old(reader).data(), old(reader).pos(), *config),
{
    let division = reader.read_i32()?;
    let radius = reader.read_random_float()?;
    let angle_start = reader.read_random_float()?;
    let angle_end = reader.read_random_float()?;
    let distribution_type: CircleDistributionType = reader.read_enum(config, "SpawnLocation.Circle.distribution_type")?;
    let axis_direction: SpawnAxisType = reader.read_enum(config, "SpawnLocation.Circle.axis_direction")?;
    let angle_noise = reader.read_random_float()?;
    Ok(SpawnLocationParameter::Circle {
        division,
        radius,
        angle_start,
        angle_end,
        distribution_type,
        axis_direction,
        angle_noise,
    })
}

fn parse_spawn_line(reader: &mut BinaryReader, config: &ParseConfig) -> (res: Result<SpawnLocationParameter, Error>)
    ensures
        final(reader).data() == old(reader).data(),
        final(reader).pos() >= old(reader).pos(),
        pr(res, final(reader).pos()) == sp_spawn_line(old(reader).data(), old(reader).pos(), *config),
{
    let division = reader.read_i32()?;
    let position_start = reader.read_random_vector3d()?;
    let position_end = reader.read_random_vector3d()?;
    let position_noise = reader.read_random_float()?;
    let distribution_type: LineDistributionType = reader.read_enum(config, "SpawnLocation.Line.distribution_type")?;
    Ok(SpawnLocationParameter::Line { division, position_start, position_end, position_noise, distribution_type })
}

/// Parse a spawn location: the rotation flag and the location.
pub fn parse_spawn_location(reader: &mut BinaryReader, version: i32, config: &ParseConfig) -> (res: Result<(bool, SpawnLocationParameter), Error>)
    ensures
        final(reader).data() == old(reader).data(),
        final(reader).pos() >= old(reader).pos(),
        pr(res, final(reader).pos()) == sp_spawn_location(old(reader).data(), old(reader).pos(), version, *config),
{
    let effects_rotation = reader.read_i32_as_bool()?;
    let type_: GenerationLocationType = reader.read_enum(config, "SpawnLocation.type")?;
    let param = match type_ {
        GenerationLocationType::Sphere => {
            let radius = reader.read_random_float()?;
            let rotation_x = reader.read_random_float()?;
            let rotation_y = reader.read_random_float()?;
            SpawnLocationParameter::Sphere { radius, rotation_x, rotation_y }
        },
        GenerationLocationType::Model => parse_spawn_model(reader, version, config)?,
        GenerationLocationType::Circle => parse_spawn_circle(reader, config)?,
        GenerationLocationType::Line => parse_spawn_line(reader, config)?,
        _ => {
            let location = reader.read_random_vector3d()?;
            SpawnLocationParameter::Point { location }
        },
    };
    Ok((effects_rotation, param))
}

} // verus!
