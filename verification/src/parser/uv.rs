//! UV parameter parser.

use vstd::prelude::*;

use crate::config::ParseConfig;
use crate::error::Error;
use crate::reader::{chain, pr, prv, sp_enum, sp_i32, sp_random_int, sp_random_vector2d, sp_rectf, BinaryReader, PR};
use crate::types::enums::{UVAnimationInterpolationType, UVAnimationLoopType, UVAnimationType};
use crate::types::fcurve::SpecFCurveVector2D;
use crate::types::primitives::{RandomInt, RandomVector2D, Rectf};
use crate::types::uv::{SpecUVParameter, UVParameter};

use super::fcurve::{parse_fcurve_vector2d, sp_fcurve_vector2d};

verus! {

/// The interpolation mode of a frame animation: only for the first slot, from
/// version 1600 on.
pub open spec fn sp_uv_interpolation(d: Seq<u8>, p: int, version: i32, cfg: ParseConfig, uv_index: usize) -> PR<
    Option<UVAnimationInterpolationType>,
> {
    if version >= 1600 && uv_index == 0 {
        chain(
            sp_enum::<UVAnimationInterpolationType>(d, p, cfg, "UV.Animation.interpolation_type"),
            |t: UVAnimationInterpolationType, p: int| Ok((Some(t), p)),
        )
    } else {
        Ok((None, p))
    }
}

/// A frame animation's fields.
pub open spec fn sp_uv_animation(d: Seq<u8>, p: int, version: i32, cfg: ParseConfig, uv_index: usize) -> PR<SpecUVParameter> {
    chain(sp_rectf(d, p), |position: Rectf, p: int|
    chain(sp_i32(d, p), |frame_length: i32, p: int|
    chain(sp_i32(d, p), |frame_count_x: i32, p: int|
    chain(sp_i32(d, p), |frame_count_y: i32, p: int|
    chain(sp_enum::<UVAnimationLoopType>(d, p, cfg, "UV.Animation.loop_type"), |loop_type: UVAnimationLoopType, p: int|
    chain(sp_random_int(d, p), |start_frame: RandomInt, p: int|
    chain(sp_uv_interpolation(d, p, version, cfg, uv_index), |interpolation_type: Option<UVAnimationInterpolationType>, p: int|
    Ok((SpecUVParameter::Animation {
        position,
        frame_length,
        frame_count_x,
        frame_count_y,
        loop_type,
        start_frame,
        interpolation_type,
    }, p)))))))))
}

/// A UV parameter: the kind code, then the kind's data. An unknown kind
/// (accepted under the lenient policy) reads nothing more and stands for `Default`.
#[verifier::opaque]
pub open spec fn sp_uv(d: Seq<u8>, p: int, version: i32, cfg: ParseConfig, uv_index: usize) -> PR<SpecUVParameter> {
    chain(sp_enum::<UVAnimationType>(d, p, cfg, "UV.type"), |t: UVAnimationType, p: int|
    match t {
        UVAnimationType::Default => Ok((SpecUVParameter::Default, p)),
        UVAnimationType::Fixed => chain(sp_rectf(d, p), |position: Rectf, p: int|
            Ok((SpecUVParameter::Fixed { position }, p))),
        UVAnimationType::Animation => sp_uv_animation(d, p, version, cfg, uv_index),
        UVAnimationType::Scroll =>
            chain(sp_random_vector2d(d, p), |position: RandomVector2D, p: int|
            chain(sp_random_vector2d(d, p), |size: RandomVector2D, p: int|
            chain(sp_random_vector2d(d, p), |speed: RandomVector2D, p: int|
            Ok((SpecUVParameter::Scroll { position, size, speed }, p))))),
        UVAnimationType::FCurve =>
            chain(sp_fcurve_vector2d(d, p, cfg), |position: SpecFCurveVector2D, p: int|
            chain(sp_fcurve_vector2d(d, p, cfg), |size: SpecFCurveVector2D, p: int|
            Ok((SpecUVParameter::FCurve { position, size }, p)))),
        UVAnimationType::Unknown(_) => Ok((SpecUVParameter::Default, p)),
    })
}

fn read_uv_interpolation(reader: &mut BinaryReader, version: i32, config: &ParseConfig, uv_index: usize) -> (res: Result<
    Option<UVAnimationInterpolationType>,
    Error,
>)
    ensures
        final(reader).data() == old(reader).data(),
        final(reader).pos() >= old(reader).pos(),
        pr(res, final(reader).pos()) == sp_uv_interpolation(old(reader).data(), old(reader).pos(), version, *config, uv_index),
{
    if version >= 1600 && uv_index == 0 {
        let t: UVAnimationInterpolationType = reader.read_enum(config, "UV.Animation.interpolation_type")?;
        Ok(Some(t))
    } else {
        Ok(None)
    }
}

fn parse_uv_animation(reader: &mut BinaryReader, version: i32, config: &ParseConfig, uv_index: usize) -> (res: Result<UVParameter, Error>)
    ensures
        final(reader).data() == old(reader).data(),
        final(reader).pos() >= old(reader).pos(),
        prv(res, final(reader).pos()) == sp_uv_animation(old(reader).data(), old(reader).pos(), version, *config, uv_index),
{
    let position = reader.read_rectf()?;
    let frame_length = reader.read_i32()?;
    let frame_count_x = reader.read_i32()?;
    let frame_count_y = reader.read_i32()?;
    let loop_type: UVAnimationLoopType = reader.read_enum(config, "UV.Animation.loop_type")?;
    let start_frame = reader.read_random_int()?;
    let interpolation_type = read_uv_interpolation(reader, version, config, uv_index)?;
    Ok(UVParameter::Animation {
        position,
        frame_length,
        frame_count_x,
        frame_count_y,
        loop_type,
        start_frame,
        interpolation_type,
    })
}

/// Parse a UV parameter for texture slot `uv_index`.
pub fn parse_uv(reader: &mut BinaryReader, version: i32, config: &ParseConfig, uv_index: usize) -> (res: Result<UVParameter, Error>)
    ensures
        final(reader).data() == old(reader).data(),
        final(reader).pos() >= old(reader).pos(),
        prv(res, final(reader).pos()) == sp_uv(old(reader).data(), old(reader).pos(), version, *config, uv_index),
{
    proof {
        reveal(sp_uv);
    }
    let type_: UVAnimationType = reader.read_enum(config, "UV.type")?;
    match type_ {
        UVAnimationType::Default => Ok(UVParameter::Default),
        UVAnimationType::Fixed => {
            let position = reader.read_rectf()?;
            Ok(UVParameter::Fixed { position })
        },
        UVAnimationType::Animation => parse_uv_animation(reader, version, config, uv_index),
        UVAnimationType::Scroll => {
            let position = reader.read_random_vector2d()?;
            let size = reader.read_random_vector2d()?;
            let speed = reader.read_random_vector2d()?;
            Ok(UVParameter::Scroll { position, size, speed })
        },
        UVAnimationType::FCurve => {
            let position = parse_fcurve_vector2d(reader, version, config)?;
            let size = parse_fcurve_vector2d(reader, version, config)?;
            Ok(UVParameter::FCurve { position: Box::new(position), size: Box::new(size) })
        },
        UVAnimationType::Unknown(_) => Ok(UVParameter::Default),
    }
}

} // verus!
