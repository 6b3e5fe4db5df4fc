//! Scaling parameter parser.

use vstd::prelude::*;

use crate::config::ParseConfig;
use crate::error::Error;
use crate::reader::{chain, prv, sp_enum, sp_i32, BinaryReader, PR};
use crate::types::enums::ParameterScalingType;
use crate::types::fcurve::{SpecFCurveScalar, SpecFCurveVector3D};
use crate::types::params::{
    ScalingParameter, SpecParameterEasingFloat, SpecParameterEasingVector3D, SpecScalingParameter,
};
use crate::types::primitives::Vector3D;

use super::blocks::{
    read_sized_easing_float, read_sized_easing_vector3d, read_sized_fixed, read_sized_pva,
    read_sized_pva1, sp_sized_easing_float, sp_sized_easing_vector3d, sp_sized_fixed,
    sp_sized_pva, sp_sized_pva1, Pva, Pva1,
};
use super::fcurve::{parse_fcurve_scalar, parse_fcurve_vector3d, sp_fcurve_scalar, sp_fcurve_vector3d};

verus! {

/// A scaling parameter: the kind code, then the kind's data. An unknown kind
/// (accepted under the lenient policy) reads nothing more and stands for no scaling.
pub open spec fn sp_scaling(d: Seq<u8>, p: int, version: i32, cfg: ParseConfig) -> PR<SpecScalingParameter> {
    chain(sp_enum::<ParameterScalingType>(d, p, cfg, "Scaling.type"), |t: ParameterScalingType, p: int|
    match t {
        ParameterScalingType::NoScaling => Ok((SpecScalingParameter::NoScaling, p)),
        ParameterScalingType::Fixed => chain(sp_sized_fixed(d, p), |v: (i32, Vector3D), p: int|
            Ok((SpecScalingParameter::Fixed { ref_eq: v.0, scale: v.1 }, p))),
        ParameterScalingType::Pva => chain(sp_sized_pva(d, p), |v: Pva, p: int|
            Ok((SpecScalingParameter::Pva {
                ref_eq_p: v.ref_eq_p,
                ref_eq_v: v.ref_eq_v,
                ref_eq_a: v.ref_eq_a,
                scale: v.value,
                velocity: v.velocity,
                acceleration: v.acceleration,
            }, p))),
        ParameterScalingType::Easing => chain(sp_sized_easing_vector3d(d, p, version, cfg),
            |e: SpecParameterEasingVector3D, p: int| Ok((SpecScalingParameter::Easing(e), p))),
        ParameterScalingType::SinglePva => chain(sp_sized_pva1(d, p), |v: Pva1, p: int|
            Ok((SpecScalingParameter::SinglePva { scale: v.value, velocity: v.velocity, acceleration: v.acceleration }, p))),
        ParameterScalingType::SingleEasing => chain(sp_sized_easing_float(d, p, version, cfg),
            |e: SpecParameterEasingFloat, p: int| Ok((SpecScalingParameter::SingleEasing(e), p))),
        ParameterScalingType::FCurve => chain(sp_i32(d, p), |_size: i32, p: int|
            chain(sp_fcurve_vector3d(d, p, cfg), |f: SpecFCurveVector3D, p: int|
            Ok((SpecScalingParameter::FCurve(f), p)))),
        ParameterScalingType::SingleFCurve => chain(sp_i32(d, p), |_size: i32, p: int|
            chain(sp_fcurve_scalar(d, p, version, cfg), |f: SpecFCurveScalar, p: int|
            Ok((SpecScalingParameter::SingleFCurve(f), p)))),
        ParameterScalingType::Unknown(_) => Ok((SpecScalingParameter::NoScaling, p)),
    })
}

/// Parse a scaling parameter.
pub fn parse_scaling(reader: &mut BinaryReader, version: i32, config: &ParseConfig) -> (res: Result<ScalingParameter, Error>)
    ensures
        final(reader).data() == old(reader).data(),
        final(reader).pos() >= old(reader).pos(),
        prv(res, final(reader).pos()) == sp_scaling(old(reader).data(), old(reader).pos(), version, *config),
{
    let type_: ParameterScalingType = reader.read_enum(config, "Scaling.type")?;
    match type_ {
        ParameterScalingType::NoScaling => Ok(ScalingParameter::NoScaling),
        ParameterScalingType::Fixed => {
            let v = read_sized_fixed(reader)?;
            Ok(ScalingParameter::Fixed { ref_eq: v.0, scale: v.1 })
        },
        ParameterScalingType::Pva => {
            let v = read_sized_pva(reader)?;
            Ok(ScalingParameter::Pva {
                ref_eq_p: v.ref_eq_p,
                ref_eq_v: v.ref_eq_v,
                ref_eq_a: v.ref_eq_a,
                scale: v.value,
                velocity: v.velocity,
                acceleration: v.acceleration,
            })
        },
        ParameterScalingType::Easing => {
            let easing = read_sized_easing_vector3d(reader, version, config)?;
            Ok(ScalingParameter::Easing(Box::new(easing)))
        },
        ParameterScalingType::SinglePva => {
            let v = read_sized_pva1(reader)?;
            Ok(ScalingParameter::SinglePva { scale: v.value, velocity: v.velocity, acceleration: v.acceleration })
        },
        ParameterScalingType::SingleEasing => {
            let easing = read_sized_easing_float(reader, version, config)?;
            Ok(ScalingParameter::SingleEasing(Box::new(easing)))
        },
        ParameterScalingType::FCurve => {
            let _size = reader.read_i32()?;
            let fcurve = parse_fcurve_vector3d(reader, version, config)?;
            Ok(ScalingParameter::FCurve(Box::new(fcurve)))
        },
        ParameterScalingType::SingleFCurve => {
            let _size = reader.read_i32()?;
            let fcurve = parse_fcurve_scalar(reader, version, config)?;
            Ok(ScalingParameter::SingleFCurve(Box::new(fcurve)))
        },
        ParameterScalingType::Unknown(_) => Ok(ScalingParameter::NoScaling),
    }
}

} // verus!
