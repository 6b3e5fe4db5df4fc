//! Translation parameter parser.

use vstd::prelude::*;

use crate::config::ParseConfig;
use crate::error::Error;
use crate::reader::{chain, prv, sp_enum, sp_i32, sp_random_float, sp_u32, BinaryReader, PR};
use crate::types::enums::{NurbsCurveLoopType, ParameterTranslationType};
use crate::types::fcurve::SpecFCurveVector3D;
use crate::types::params::{SpecParameterEasingVector3D, SpecTranslationParameter, TranslationParameter};
use crate::types::primitives::{RandomFloat, Vector3D};

use super::blocks::{
    read_sized_easing_vector3d, read_sized_fixed, read_sized_pva, sp_sized_easing_vector3d,
    sp_sized_fixed, sp_sized_pva, Pva,
};
use super::fcurve::{parse_fcurve_vector3d, sp_fcurve_vector3d};

verus! {

/// A NURBS-curve translation: curve index, scale, speed, loop mode.
pub open spec fn sp_translation_nurbs(d: Seq<u8>, p: int, cfg: ParseConfig) -> PR<SpecTranslationParameter> {
    chain(sp_i32(d, p), |index: i32, p: int|
    chain(sp_u32(d, p), |scale: u32, p: int|
    chain(sp_u32(d, p), |move_speed: u32, p: int|
    chain(sp_enum::<NurbsCurveLoopType>(d, p, cfg, "Translation.NurbsCurve.loop_type"), |loop_type: NurbsCurveLoopType, p: int|
    Ok((SpecTranslationParameter::NurbsCurve { index, scale, move_speed, loop_type }, p))))))
}

/// A translation parameter: the kind code, then the kind's data. An unknown
/// kind (accepted under the lenient policy) reads nothing more and stands for
/// no translation.
pub open spec fn sp_translation(d: Seq<u8>, p: int, version: i32, cfg: ParseConfig) -> PR<SpecTranslationParameter> {
    chain(sp_enum::<ParameterTranslationType>(d, p, cfg, "Translation.type"), |t: ParameterTranslationType, p: int|
    match t {
        ParameterTranslationType::NoTranslation => Ok((SpecTranslationParameter::NoTranslation, p)),
        ParameterTranslationType::Fixed => chain(sp_sized_fixed(d, p), |v: (i32, Vector3D), p: int|
            Ok((SpecTranslationParameter::Fixed { ref_eq: v.0, position: v.1 }, p))),
        ParameterTranslationType::Pva => chain(sp_sized_pva(d, p), |v: Pva, p: int|
            Ok((SpecTranslationParameter::Pva {
                ref_eq_p: v.ref_eq_p,
                ref_eq_v: v.ref_eq_v,
                ref_eq_a: v.ref_eq_a,
                position: v.value,
                velocity: v.velocity,
                acceleration: v.acceleration,
            }, p))),
        ParameterTranslationType::Easing => chain(sp_sized_easing_vector3d(d, p, version, cfg),
            |e: SpecParameterEasingVector3D, p: int| Ok((SpecTranslationParameter::Easing(e), p))),
        ParameterTranslationType::FCurve => chain(sp_i32(d, p), |_size: i32, p: int|
            chain(sp_fcurve_vector3d(d, p, cfg), |f: SpecFCurveVector3D, p: int|
            Ok((SpecTranslationParameter::FCurve(f), p)))),
        ParameterTranslationType::NurbsCurve => sp_translation_nurbs(d, p, cfg),
        ParameterTranslationType::ViewOffset => chain(sp_random_float(d, p), |distance: RandomFloat, p: int|
            Ok((SpecTranslationParameter::ViewOffset { distance }, p))),
        ParameterTranslationType::Unknown(_) => Ok((SpecTranslationParameter::NoTranslation, p)),
    })
}

fn parse_translation_nurbs(reader: &mut BinaryReader, config: &ParseConfig) -> (res: Result<TranslationParameter, Error>)
    ensures
        final(reader).data() == old(reader).data(),
        final(reader).pos() >= old(reader).pos(),
        prv(res, final(reader).pos()) == sp_translation_nurbs(old(reader).data(), old(reader).pos(), *config),
{
    let index = reader.read_i32()?;
    let scale = reader.read_f32()?;
    let move_speed = reader.read_f32()?;
    let loop_type: NurbsCurveLoopType = reader.read_enum(config, "Translation.NurbsCurve.loop_type")?;
    Ok(TranslationParameter::NurbsCurve { index, scale, move_speed, loop_type })
}

/// Parse a translation parameter.
pub fn parse_translation(reader: &mut BinaryReader, version: i32, config: &ParseConfig) -> (res: Result<TranslationParameter, Error>)
    ensures
        final(reader).data() == old(reader).data(),
        final(reader).pos() >= old(reader).pos(),
        prv(res, final(reader).pos()) == sp_translation(old(reader).data(), old(reader).pos(), version, *config),
{
    let type_: ParameterTranslationType = reader.read_enum(config, "Translation.type")?;
    match type_ {
        ParameterTranslationType::NoTranslation => Ok(TranslationParameter::NoTranslation),
        ParameterTranslationType::Fixed => {
            let v = read_sized_fixed(reader)?;
            Ok(TranslationParameter::Fixed { ref_eq: v.0, position: v.1 })
        },
        ParameterTranslationType::Pva => {
            let v = read_sized_pva(reader)?;
            Ok(TranslationParameter::Pva {
                ref_eq_p: v.ref_eq_p,
                ref_eq_v: v.ref_eq_v,
                ref_eq_a: v.ref_eq_a,
                position: v.value,
                velocity: v.velocity,
                acceleration: v.acceleration,
            })
        },
        ParameterTranslationType::Easing => {
            let easing = read_sized_easing_vector3d(reader, version, config)?;
            Ok(TranslationParameter::Easing(Box::new(easing)))
        },
        ParameterTranslationType::FCurve => {
            let _size = reader.read_i32()?;
            let fcurve = parse_fcurve_vector3d(reader, version, config)?;
            Ok(TranslationParameter::FCurve(Box::new(fcurve)))
        },
        ParameterTranslationType::NurbsCurve => parse_translation_nurbs(reader, config),
        ParameterTranslationType::ViewOffset => {
            let distance = reader.read_random_float()?;
            Ok(TranslationParameter::ViewOffset { distance })
        },
        ParameterTranslationType::Unknown(_) => Ok(TranslationParameter::NoTranslation),
    }
}

} // verus!
