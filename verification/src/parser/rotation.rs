//! Rotation parameter parser.

use vstd::prelude::*;

use crate::config::ParseConfig;
use crate::error::Error;
use crate::reader::{chain, prv, sp_enum, sp_i32, sp_random_vector3d, BinaryReader, PR};
use crate::types::enums::{DirectionalAxisType, ParameterRotationType};
use crate::types::fcurve::SpecFCurveVector3D;
use crate::types::params::{
    RotationParameter, SpecParameterEasingFloat, SpecParameterEasingVector3D, SpecRotationParameter,
};
use crate::types::primitives::{RandomVector3D, Vector3D};

use super::blocks::{
    read_sized_axis_pva, read_sized_easing_vector3d, read_sized_fixed, read_sized_pva,
    sp_sized_axis_pva, sp_sized_easing_vector3d, sp_sized_fixed, sp_sized_pva, Pva, Pva1,
};
use super::easing::{parse_easing_float, sp_easing_float};
use super::fcurve::{parse_fcurve_vector3d, sp_fcurve_vector3d};

verus! {

/// An eased rotation about an axis: an ignored size, the axis, then a float
/// easing whose optional fields all start at version 1608.
pub open spec fn sp_rotation_axis_easing(d: Seq<u8>, p: int, version: i32, cfg: ParseConfig) -> PR<SpecRotationParameter> {
    chain(sp_i32(d, p), |_size: i32, p: int|
    chain(sp_random_vector3d(d, p), |axis: RandomVector3D, p: int|
    chain(sp_easing_float(d, p, version, cfg, 1608, 1608), |easing: SpecParameterEasingFloat, p: int|
    Ok((SpecRotationParameter::AxisEasing { axis, easing }, p)))))
}

/// A rotation parameter: the kind code, then the kind's data. An unknown kind
/// (accepted under the lenient policy) reads nothing more and stands for no rotation.
pub open spec fn sp_rotation(d: Seq<u8>, p: int, version: i32, cfg: ParseConfig) -> PR<SpecRotationParameter> {
    chain(sp_enum::<ParameterRotationType>(d, p, cfg, "Rotation.type"), |t: ParameterRotationType, p: int|
    match t {
        ParameterRotationType::NoRotation => Ok((SpecRotationParameter::NoRotation, p)),
        ParameterRotationType::Fixed => chain(sp_sized_fixed(d, p), |v: (i32, Vector3D), p: int|
            Ok((SpecRotationParameter::Fixed { ref_eq: v.0, rotation: v.1 }, p))),
        ParameterRotationType::Pva => chain(sp_sized_pva(d, p), |v: Pva, p: int|
            Ok((SpecRotationParameter::Pva {
                ref_eq_p: v.ref_eq_p,
                ref_eq_v: v.ref_eq_v,
                ref_eq_a: v.ref_eq_a,
                rotation: v.value,
                velocity: v.velocity,
                acceleration: v.acceleration,
            }, p))),
        ParameterRotationType::Easing => chain(sp_sized_easing_vector3d(d, p, version, cfg),
            |e: SpecParameterEasingVector3D, p: int| Ok((SpecRotationParameter::Easing(e), p))),
        ParameterRotationType::AxisPva => chain(sp_sized_axis_pva(d, p), |v: (RandomVector3D, Pva1), p: int|
            Ok((SpecRotationParameter::AxisPva {
                axis: v.0,
                rotation: v.1.value,
                velocity: v.1.velocity,
                acceleration: v.1.acceleration,
            }, p))),
        ParameterRotationType::AxisEasing => sp_rotation_axis_easing(d, p, version, cfg),
        ParameterRotationType::FCurve => chain(sp_i32(d, p), |_size: i32, p: int|
            chain(sp_fcurve_vector3d(d, p, cfg), |f: SpecFCurveVector3D, p: int|
            Ok((SpecRotationParameter::FCurve(f), p)))),
        ParameterRotationType::RotateToViewpoint => chain(sp_i32(d, p), |_size: i32, p: int|
            Ok((SpecRotationParameter::RotateToViewpoint, p))),
        ParameterRotationType::Velocity => chain(sp_i32(d, p), |_size: i32, p: int|
            chain(sp_enum::<DirectionalAxisType>(d, p, cfg, "Rotation.Velocity.axis"), |axis: DirectionalAxisType, p: int|
            Ok((SpecRotationParameter::Velocity { axis }, p)))),
        ParameterRotationType::Unknown(_) => Ok((SpecRotationParameter::NoRotation, p)),
    })
}

fn parse_rotation_axis_easing(reader: &mut BinaryReader, version: i32, config: &ParseConfig) -> (res: Result<RotationParameter, Error>)
    ensures
        final(reader).data() == old(reader).data(),
        final(reader).pos() >= old(reader).pos(),
        prv(res, final(reader).pos()) == sp_rotation_axis_easing(old(reader).data(), old(reader).pos(), version, *config),
{
    let _size = reader.read_i32()?;
    let axis = reader.read_random_vector3d()?;
    let easing = parse_easing_float(reader, version, config, 1608, 1608)?;
    Ok(RotationParameter::AxisEasing { axis, easing })
}

/// Parse a rotation parameter.
pub fn parse_rotation(reader: &mut BinaryReader, version: i32, config: &ParseConfig) -> (res: Result<RotationParameter, Error>)
    ensures
        final(reader).data() == old(reader).data(),
        final(reader).pos() >= old(reader).pos(),
        prv(res, final(reader).pos()) == sp_rotation(old(reader).data(), old(reader).pos(), version, *config),
{
    let type_: ParameterRotationType = reader.read_enum(config, "Rotation.type")?;
    match type_ {
        ParameterRotationType::NoRotation => Ok(RotationParameter::NoRotation),
        ParameterRotationType::Fixed => {
            let v = read_sized_fixed(reader)?;
            Ok(RotationParameter::Fixed { ref_eq: v.0, rotation: v.1 })
        },
        ParameterRotationType::Pva => {
            let v = read_sized_pva(reader)?;
            Ok(RotationParameter::Pva {
                ref_eq_p: v.ref_eq_p,
                ref_eq_v: v.ref_eq_v,
                ref_eq_a: v.ref_eq_a,
                rotation: v.value,
                velocity: v.velocity,
                acceleration: v.acceleration,
            })
        },
        ParameterRotationType::Easing => {
            let easing = read_sized_easing_vector3d(reader, version, config)?;
            Ok(RotationParameter::Easing(Box::new(easing)))
        },
        ParameterRotationType::AxisPva => {
            let v = read_sized_axis_pva(reader)?;
            Ok(RotationParameter::AxisPva {
                axis: v.0,
                rotation: v.1.value,
                velocity: v.1.velocity,
                acceleration: v.1.acceleration,
            })
        },
        ParameterRotationType::AxisEasing => parse_rotation_axis_easing(reader, version, config),
        ParameterRotationType::FCurve => {
            let _size = reader.read_i32()?;
            let fcurve = parse_fcurve_vector3d(reader, version, config)?;
            Ok(RotationParameter::FCurve(Box::new(fcurve)))
        },
        ParameterRotationType::RotateToViewpoint => {
            let _size = reader.read_i32()?;
            Ok(RotationParameter::RotateToViewpoint)
        },
        ParameterRotationType::Velocity => {
            let _size = reader.read_i32()?;
            let axis: DirectionalAxisType = reader.read_enum(config, "Rotation.Velocity.axis")?;
            Ok(RotationParameter::Velocity { axis })
        },
        ParameterRotationType::Unknown(_) => Ok(RotationParameter::NoRotation),
    }
}

} // verus!
