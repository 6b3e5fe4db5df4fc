//! F-Curve binary loading.

use vstd::prelude::*;

use crate::config::ParseConfig;
use crate::error::Error;
use crate::reader::{chain, lemma_repeat_len, prv, sp_enum, sp_i32, sp_repeat, sp_u32, u32_item, BinaryReader, PR};
use crate::types::enums::FCurveEdge;
use crate::types::fcurve::{
    FCurve, FCurveScalar, FCurveVector2D, FCurveVector3D, FCurveVectorColor, SpecFCurve,
    SpecFCurveScalar, SpecFCurveVector2D, SpecFCurveVector3D, SpecFCurveVectorColor,
};

verus! {

/// The error for a sample count above the configured limit.
pub open spec fn fcurve_limit_error(count: usize, cfg: ParseConfig) -> Error {
    Error::ResourceLimitExceeded {
        field: "FCurve.keys",
        count: count,
        max: cfg.limits.max_fcurve_samples,
    }
}

/// A single F-curve: edges, offsets, length, frequency, sample count (checked
/// against the limit) and samples.
pub open spec fn sp_fcurve(d: Seq<u8>, p: int, cfg: ParseConfig) -> PR<SpecFCurve> {
    chain(sp_enum::<FCurveEdge>(d, p, cfg, "FCurve.start_edge"), |start_edge: FCurveEdge, p: int|
    chain(sp_enum::<FCurveEdge>(d, p, cfg, "FCurve.end_edge"), |end_edge: FCurveEdge, p: int|
    chain(sp_u32(d, p), |offset_max: u32, p: int|
    chain(sp_u32(d, p), |offset_min: u32, p: int|
    chain(sp_i32(d, p), |offset: i32, p: int|
    chain(sp_i32(d, p), |len: i32, p: int|
    chain(sp_i32(d, p), |freq: i32, p: int|
    chain(sp_i32(d, p), |raw: i32, p: int|
    if raw as usize > cfg.limits.max_fcurve_samples {
        Err(fcurve_limit_error(raw as usize, cfg))
    } else {
        chain(sp_repeat(raw as usize as nat, p, u32_item(d)), |keys: Seq<u32>, p: int|
        Ok((SpecFCurve { start_edge, end_edge, offset_max, offset_min, offset, len, freq, keys }, p)))
    }))))))))
}

/// Law: an F-curve that parses holds no more samples than the configured limit.
pub proof fn lemma_fcurve_within_limit(d: Seq<u8>, p: int, cfg: ParseConfig)
    requires
        sp_fcurve(d, p, cfg) is Ok,
    ensures
        sp_fcurve(d, p, cfg)->Ok_0.0.keys.len() <= cfg.limits.max_fcurve_samples,
{
    let (e1, p1) = sp_enum::<FCurveEdge>(d, p, cfg, "FCurve.start_edge")->Ok_0;
    let (e2, p2) = sp_enum::<FCurveEdge>(d, p1, cfg, "FCurve.end_edge")->Ok_0;
    let (a, p3) = sp_u32(d, p2)->Ok_0;
    let (b, p4) = sp_u32(d, p3)->Ok_0;
    let (c, p5) = sp_i32(d, p4)->Ok_0;
    let (e, p6) = sp_i32(d, p5)->Ok_0;
    let (f, p7) = sp_i32(d, p6)->Ok_0;
    let (raw, p8) = sp_i32(d, p7)->Ok_0;
    lemma_repeat_len(raw as usize as nat, p8, u32_item(d));
}

/// A one-channel F-curve: the timeline (from version 1600 on, else `0`) and a curve.
pub open spec fn sp_fcurve_scalar(d: Seq<u8>, p: int, version: i32, cfg: ParseConfig) -> PR<SpecFCurveScalar> {
    chain(
        if version >= 1600 { sp_i32(d, p) } else { Ok((0i32, p)) },
        |timeline: i32, p: int|
        chain(sp_fcurve(d, p, cfg), |s: SpecFCurve, p: int| Ok((SpecFCurveScalar { timeline, s }, p))),
    )
}

/// A two-channel F-curve: timeline and two curves.
pub open spec fn sp_fcurve_vector2d(d: Seq<u8>, p: int, cfg: ParseConfig) -> PR<SpecFCurveVector2D> {
    chain(sp_i32(d, p), |timeline: i32, p: int|
    chain(sp_fcurve(d, p, cfg), |x: SpecFCurve, p: int|
    chain(sp_fcurve(d, p, cfg), |y: SpecFCurve, p: int|
    Ok((SpecFCurveVector2D { timeline, x, y }, p)))))
}

/// A three-channel F-curve: timeline and three curves.
pub open spec fn sp_fcurve_vector3d(d: Seq<u8>, p: int, cfg: ParseConfig) -> PR<SpecFCurveVector3D> {
    chain(sp_i32(d, p), |timeline: i32, p: int|
    chain(sp_fcurve(d, p, cfg), |x: SpecFCurve, p: int|
    chain(sp_fcurve(d, p, cfg), |y: SpecFCurve, p: int|
    chain(sp_fcurve(d, p, cfg), |z: SpecFCurve, p: int|
    Ok((SpecFCurveVector3D { timeline, x, y, z }, p))))))
}

/// A four-channel F-curve: timeline and four curves.
pub open spec fn sp_fcurve_vector_color(d: Seq<u8>, p: int, cfg: ParseConfig) -> PR<SpecFCurveVectorColor> {
    chain(sp_i32(d, p), |timeline: i32, p: int|
    chain(sp_fcurve(d, p, cfg), |r: SpecFCurve, p: int|
    chain(sp_fcurve(d, p, cfg), |g: SpecFCurve, p: int|
    chain(sp_fcurve(d, p, cfg), |b: SpecFCurve, p: int|
    chain(sp_fcurve(d, p, cfg), |a: SpecFCurve, p: int|
    Ok((SpecFCurveVectorColor { timeline, r, g, b, a }, p)))))))
}

/// Read a single FCurve from the binary stream.
pub fn parse_fcurve(reader: &mut BinaryReader, config: &ParseConfig) -> (res: Result<FCurve, Error>)
    ensures
        final(reader).data() == old(reader).data(),
        final(reader).pos() >= old(reader).pos(),
        prv(res, final(reader).pos()) == sp_fcurve(old(reader).data(), old(reader).pos(), *config),
{
    let start_edge: FCurveEdge = reader.read_enum(config, "FCurve.start_edge")?;
    let end_edge: FCurveEdge = reader.read_enum(config, "FCurve.end_edge")?;
    let offset_max = reader.read_f32()?;
    let offset_min = reader.read_f32()?;
    let offset = reader.read_i32()?;
    let len = reader.read_i32()?;
    let freq = reader.read_i32()?;
    let raw = reader.read_i32()?;
    let count = #[verifier::truncate] (raw as usize);
    if count > config.limits.max_fcurve_samples {
        return Err(
            Error::ResourceLimitExceeded {
                field: "FCurve.keys",
                count,
                max: config.limits.max_fcurve_samples,
            },
        );
    }
    let keys = reader.read_u32_seq(count)?;
    Ok(FCurve { start_edge, end_edge, offset_max, offset_min, offset, len, freq, keys })
}

/// Read an FCurveScalar (1 channel). The timeline field exists from version 1600 on.
pub fn parse_fcurve_scalar(reader: &mut BinaryReader, version: i32, config: &ParseConfig) -> (res: Result<FCurveScalar, Error>)
    ensures
        final(reader).data() == old(reader).data(),
        final(reader).pos() >= old(reader).pos(),
        prv(res, final(reader).pos()) == sp_fcurve_scalar(old(reader).data(), old(reader).pos(), version, *config),
{
    let timeline = if version >= 1600 {
        reader.read_i32()?
    } else {
        0
    };
    let s = parse_fcurve(reader, config)?;
    Ok(FCurveScalar { timeline, s })
}

/// Read an FCurveVector2D (2 channels).
pub fn parse_fcurve_vector2d(reader: &mut BinaryReader, _version: i32, config: &ParseConfig) -> (res: Result<FCurveVector2D, Error>)
    ensures
        final(reader).data() == old(reader).data(),
        final(reader).pos() >= old(reader).pos(),
        prv(res, final(reader).pos()) == sp_fcurve_vector2d(old(reader).data(), old(reader).pos(), *config),
{
    let timeline = reader.read_i32()?;
    let x = parse_fcurve(reader, config)?;
    let y = parse_fcurve(reader, config)?;
    Ok(FCurveVector2D { timeline, x, y })
}

/// Read an FCurveVector3D (3 channels).
pub fn parse_fcurve_vector3d(reader: &mut BinaryReader, _version: i32, config: &ParseConfig) -> (res: Result<FCurveVector3D, Error>)
    ensures
        final(reader).data() == old(reader).data(),
        final(reader).pos() >= old(reader).pos(),
        prv(res, final(reader).pos()) == sp_fcurve_vector3d(old(reader).data(), old(reader).pos(), *config),
{
    let timeline = reader.read_i32()?;
    let x = parse_fcurve(reader, config)?;
    let y = parse_fcurve(reader, config)?;
    let z = parse_fcurve(reader, config)?;
    Ok(FCurveVector3D { timeline, x, y, z })
}

/// Read an FCurveVectorColor (4 channels).
pub fn parse_fcurve_vector_color(reader: &mut BinaryReader, _version: i32, config: &ParseConfig) -> (res: Result<FCurveVectorColor, Error>)
    ensures
        final(reader).data() == old(reader).data(),
        final(reader).pos() >= old(reader).pos(),
        prv(res, final(reader).pos()) == sp_fcurve_vector_color(old(reader).data(), old(reader).pos(), *config),
{
    let timeline = reader.read_i32()?;
    let r = parse_fcurve(reader, config)?;
    let g = parse_fcurve(reader, config)?;
    let b = parse_fcurve(reader, config)?;
    let a = parse_fcurve(reader, config)?;
    Ok(FCurveVectorColor { timeline, r, g, b, a })
}

} // verus!
