//! Alpha cutoff parameter parser (version 1605 and later).

use vstd::prelude::*;

use crate::config::ParseConfig;
use crate::error::Error;
use crate::reader::{
    chain, pr, prv, sp_bytes, sp_color, sp_enum, sp_i32, sp_random_float, sp_random_int, sp_skip_rest,
    sp_u32, BinaryReader, PR,
};
use crate::types::alpha_cutoff::{
    AlphaCutoffParameter, AlphaCutoffVariant, LegacyFloat, SpecAlphaCutoffParameter,
    SpecAlphaCutoffVariant,
};
use crate::types::enums::AlphaCutoffType;
use crate::types::fcurve::SpecFCurveScalar;
use crate::types::params::SpecParameterEasingFloat;
use crate::types::primitives::{Color, RandomFloat, RandomInt};

use super::easing::{parse_easing_float, sp_easing_float};
use super::fcurve::{parse_fcurve_scalar, sp_fcurve_scalar};

verus! {

/// The alpha cutoff of nodes without one: no cutoff and zero edge values.
pub open spec fn spec_default_alpha_cutoff() -> SpecAlphaCutoffParameter {
    SpecAlphaCutoffParameter {
        cutoff: None,
        edge_threshold: 0,
        edge_color: Color { r: 0, g: 0, b: 0, a: 0 },
        edge_color_scaling: LegacyFloat::Float(0),
    }
}

/// The four-point interpolation's thresholds and transitions.
pub open spec fn sp_four_point(d: Seq<u8>, p: int) -> PR<SpecAlphaCutoffVariant> {
    chain(sp_random_float(d, p), |begin_threshold: RandomFloat, p: int|
    chain(sp_random_int(d, p), |transition_frame_num: RandomInt, p: int|
    chain(sp_random_float(d, p), |no2_threshold: RandomFloat, p: int|
    chain(sp_random_float(d, p), |no3_threshold: RandomFloat, p: int|
    chain(sp_random_int(d, p), |transition_frame_num2: RandomInt, p: int|
    chain(sp_random_float(d, p), |end_threshold: RandomFloat, p: int|
    Ok((SpecAlphaCutoffVariant::FourPointInterpolation {
        begin_threshold,
        transition_frame_num,
        no2_threshold,
        no3_threshold,
        transition_frame_num2,
        end_threshold,
    }, p))))))))
}

/// The kind-specific data. An unknown kind (accepted under the lenient policy)
/// skips the whole buffer and has no data.
pub open spec fn sp_cutoff_variant(d: Seq<u8>, p: int, version: i32, cfg: ParseConfig, t: AlphaCutoffType, buffer_size: usize) -> PR<
    Option<SpecAlphaCutoffVariant>,
> {
    match t {
        AlphaCutoffType::Fixed =>
            chain(sp_i32(d, p), |ref_eq: i32, p: int|
            chain(sp_u32(d, p), |threshold: u32, p: int|
            Ok((Some(SpecAlphaCutoffVariant::Fixed { ref_eq, threshold }), p)))),
        AlphaCutoffType::FourPointInterpolation =>
            chain(sp_four_point(d, p), |v: SpecAlphaCutoffVariant, p: int| Ok((Some(v), p))),
        AlphaCutoffType::Easing =>
            chain(sp_easing_float(d, p, version, cfg, 14, 1600), |e: SpecParameterEasingFloat, p: int|
            Ok((Some(SpecAlphaCutoffVariant::Easing(e)), p))),
        AlphaCutoffType::FCurve =>
            chain(sp_fcurve_scalar(d, p, version, cfg), |f: SpecFCurveScalar, p: int|
            Ok((Some(SpecAlphaCutoffVariant::FCurve(f)), p))),
        AlphaCutoffType::Unknown(_) =>
            chain(sp_bytes(d, p, buffer_size as int), |b: Seq<u8>, p: int| Ok((None, p))),
    }
}

/// The edge color scaling: an `i32` before version 1606, an `f32` after.
pub open spec fn sp_legacy_float(d: Seq<u8>, p: int, version: i32) -> PR<LegacyFloat> {
    if version < 1606 {
        chain(sp_i32(d, p), |v: i32, p: int| Ok((LegacyFloat::Integer(v), p)))
    } else {
        chain(sp_u32(d, p), |v: u32, p: int| Ok((LegacyFloat::Float(v), p)))
    }
}

/// An enabled alpha cutoff: kind, buffer size, kind data in the buffer (the
/// rest of the buffer skipped), edge threshold, edge color, edge scaling.
pub open spec fn sp_alpha_cutoff_enabled(d: Seq<u8>, p: int, version: i32, cfg: ParseConfig) -> PR<SpecAlphaCutoffParameter> {
    chain(sp_enum::<AlphaCutoffType>(d, p, cfg, "AlphaCutoff.type"), |t: AlphaCutoffType, p: int|
    chain(sp_i32(d, p), |raw_size: i32, start: int|
    chain(sp_cutoff_variant(d, start, version, cfg, t, raw_size as usize), |cutoff: Option<SpecAlphaCutoffVariant>, p: int|
    chain(sp_skip_rest(d, start, raw_size as usize, p), |u: (), p: int|
    chain(sp_u32(d, p), |edge_threshold: u32, p: int|
    chain(sp_color(d, p), |edge_color: Color, p: int|
    chain(sp_legacy_float(d, p, version), |edge_color_scaling: LegacyFloat, p: int|
    Ok((SpecAlphaCutoffParameter { cutoff, edge_threshold, edge_color, edge_color_scaling }, p)))))))))
}

/// The alpha cutoff of a node: from version 1605 a flag; when it is `1`, the
/// enabled cutoff follows. Otherwise the default.
pub open spec fn sp_alpha_cutoff(d: Seq<u8>, p: int, version: i32, cfg: ParseConfig) -> PR<SpecAlphaCutoffParameter> {
    if version >= 1605 {
        chain(sp_i32(d, p), |flag: i32, p: int|
        if flag == 1 {
            sp_alpha_cutoff_enabled(d, p, version, cfg)
        } else {
            Ok((spec_default_alpha_cutoff(), p))
        })
    } else {
        Ok((spec_default_alpha_cutoff(), p))
    }
}

fn default_alpha_cutoff() -> (r: AlphaCutoffParameter)
    ensures
        r@ == spec_default_alpha_cutoff(),
{
    AlphaCutoffParameter {
        cutoff: None,
        edge_threshold: 0,
        edge_color: Color { r: 0, g: 0, b: 0, a: 0 },
        edge_color_scaling: LegacyFloat::Float(0),
    }
}

fn parse_four_point(reader: &mut BinaryReader) -> (res: Result<AlphaCutoffVariant, Error>)
    ensures
        final(reader).data() == old(reader).data(),
        final(reader).pos() >= old(reader).pos(),
        prv(res, final(reader).pos()) == sp_four_point(old(reader).data(), old(reader).pos()),
{
    let begin_threshold = reader.read_random_float()?;
    let transition_frame_num = reader.read_random_int()?;
    let no2_threshold = reader.read_random_float()?;
    let no3_threshold = reader.read_random_float()?;
    let transition_frame_num2 = reader.read_random_int()?;
    let end_threshold = reader.read_random_float()?;
    Ok(AlphaCutoffVariant::FourPointInterpolation {
        begin_threshold,
        transition_frame_num,
        no2_threshold,
        no3_threshold,
        transition_frame_num2,
        end_threshold,
    })
}

fn parse_cutoff_variant(
    reader: &mut BinaryReader,
    version: i32,
    config: &ParseConfig,
    t: AlphaCutoffType,
    buffer_size: usize,
) -> (res: Result<Option<AlphaCutoffVariant>, Error>)
    ensures
        final(reader).data() == old(reader).data(),
        final(reader).pos() >= old(reader).pos(),
        match (res, sp_cutoff_variant(old(reader).data(), old(reader).pos(), version, *config, t, buffer_size)) {
            (Ok(v), Ok((w, q))) => q == final(reader).pos() && match (v, w) {
                (Some(a), Some(b)) => a@ == b,
                (None, None) => true,
                _ => false,
            },
            (Err(e), Err(f)) => e == f,
            _ => false,
        },
{
    match t {
        AlphaCutoffType::Fixed => {
            let ref_eq = reader.read_i32()?;
            let threshold = reader.read_f32()?;
            Ok(Some(AlphaCutoffVariant::Fixed { ref_eq, threshold }))
        },
        AlphaCutoffType::FourPointInterpolation => {
            let v = parse_four_point(reader)?;
            Ok(Some(v))
        },
        AlphaCutoffType::Easing => {
            let easing = parse_easing_float(reader, version, config, 14, 1600)?;
            Ok(Some(AlphaCutoffVariant::Easing(Box::new(easing))))
        },
        AlphaCutoffType::FCurve => {
            let fcurve = parse_fcurve_scalar(reader, version, config)?;
            Ok(Some(AlphaCutoffVariant::FCurve(Box::new(fcurve))))
        },
        AlphaCutoffType::Unknown(_) => {
            reader.skip(buffer_size)?;
            Ok(None)
        },
    }
}

fn parse_legacy_float(reader: &mut BinaryReader, version: i32) -> (res: Result<LegacyFloat, Error>)
    ensures
        final(reader).data() == old(reader).data(),
        final(reader).pos() >= old(reader).pos(),
        pr(res, final(reader).pos()) == sp_legacy_float(old(reader).data(), old(reader).pos(), version),
{
    if version < 1606 {
        let v = reader.read_i32()?;
        Ok(LegacyFloat::Integer(v))
    } else {
        let v = reader.read_f32()?;
        Ok(LegacyFloat::Float(v))
    }
}

fn parse_alpha_cutoff_enabled(reader: &mut BinaryReader, version: i32, config: &ParseConfig) -> (res: Result<AlphaCutoffParameter, Error>)
    ensures
        final(reader).data() == old(reader).data(),
        final(reader).pos() >= old(reader).pos(),
        prv(res, final(reader).pos()) == sp_alpha_cutoff_enabled(old(reader).data(), old(reader).pos(), version, *config),
{
    let cutoff_type: AlphaCutoffType = reader.read_enum(config, "AlphaCutoff.type")?;
    let buffer_size = #[verifier::truncate] (reader.read_i32()? as usize);
    let start = reader.position();
    let cutoff = parse_cutoff_variant(reader, version, config, cutoff_type, buffer_size)?;
    reader.skip_rest(start, buffer_size)?;
    let edge_threshold = reader.read_f32()?;
    let edge_color = reader.read_color()?;
    let edge_color_scaling = parse_legacy_float(reader, version)?;
    Ok(AlphaCutoffParameter { cutoff, edge_threshold, edge_color, edge_color_scaling })
}

/// Parse the alpha cutoff of a node.
pub fn parse_alpha_cutoff(reader: &mut BinaryReader, version: i32, config: &ParseConfig) -> (res: Result<AlphaCutoffParameter, Error>)
    ensures
        final(reader).data() == old(reader).data(),
        final(reader).pos() >= old(reader).pos(),
        prv(res, final(reader).pos()) == sp_alpha_cutoff(old(reader).data(), old(reader).pos(), version, *config),
{
    if version >= 1605 {
        let flag = reader.read_i32()?;
        if flag == 1 {
            parse_alpha_cutoff_enabled(reader, version, config)
        } else {
            Ok(default_alpha_cutoff())
        }
    } else {
        Ok(default_alpha_cutoff())
    }
}

} // verus!
