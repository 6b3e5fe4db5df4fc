//! ParameterEasing template parsers: version-dependent easing for Float and Vector3D.

use vstd::prelude::*;

use crate::config::ParseConfig;
use crate::error::Error;
use crate::reader::{
    chain, enum_item, pr, pro, prv, sp_enum, sp_i32, sp_random_float, sp_random_vector3d,
    sp_ref_min_max, sp_repeat, sp_sized, sp_u32, BinaryReader, PR,
};
use crate::types::enums::Easing3Type;
use crate::types::params::{
    MiddlePointFloat, MiddlePointVector3D, ParameterEasingFloat, ParameterEasingVector3D,
    SpecParameterEasingFloat, SpecParameterEasingVector3D,
};
use crate::types::primitives::{
    no_ref, spec_no_ref, EasingFloatWithoutRandom, RandomFloat, RandomVector3D, RefMinMax,
};

verus! {

/// A pair of equation references, present from `min_version` on (else none).
pub open spec fn sp_opt_ref(d: Seq<u8>, p: int, present: bool) -> PR<RefMinMax> {
    if present {
        sp_ref_min_max(d, p)
    } else {
        Ok((spec_no_ref(), p))
    }
}

/// The three cubic coefficients `a`, `b`, `c`.
pub open spec fn sp_abc(d: Seq<u8>, p: int) -> PR<EasingFloatWithoutRandom> {
    chain(sp_u32(d, p), |a: u32, p: int|
    chain(sp_u32(d, p), |b: u32, p: int|
    chain(sp_u32(d, p), |c: u32, p: int|
    Ok((EasingFloatWithoutRandom { a, b, c }, p)))))
}

/// The optional middle point of a float easing: a flag, then references and value.
pub open spec fn sp_middle_float(d: Seq<u8>, p: int, append: bool) -> PR<Option<MiddlePointFloat>> {
    if !append {
        Ok((None, p))
    } else {
        chain(sp_i32(d, p), |flag: i32, p: int|
        if flag != 0 {
            chain(sp_ref_min_max(d, p), |ref_eq_m: RefMinMax, p: int|
            chain(sp_random_float(d, p), |middle: RandomFloat, p: int|
            Ok((Some(MiddlePointFloat { ref_eq_m, middle }), p))))
        } else {
            Ok((None, p))
        })
    }
}

/// The optional middle point of a vector easing: a flag, then references and value.
pub open spec fn sp_middle_vector3d(d: Seq<u8>, p: int, append: bool) -> PR<Option<MiddlePointVector3D>> {
    if !append {
        Ok((None, p))
    } else {
        chain(sp_i32(d, p), |flag: i32, p: int|
        if flag != 0 {
            chain(sp_ref_min_max(d, p), |ref_eq_m: RefMinMax, p: int|
            chain(sp_random_vector3d(d, p), |middle: RandomVector3D, p: int|
            Ok((Some(MiddlePointVector3D { ref_eq_m, middle }), p))))
        } else {
            Ok((None, p))
        })
    }
}

/// The easing curve and its coefficients. With the appended fields, a curve
/// code followed by coefficients only for `StartEndSpeed`; without them, always
/// `StartEndSpeed` with coefficients.
pub open spec fn sp_easing_kind(d: Seq<u8>, p: int, cfg: ParseConfig, append: bool) -> PR<
    (Easing3Type, Option<EasingFloatWithoutRandom>),
> {
    if append {
        chain(sp_enum::<Easing3Type>(d, p, cfg, "Easing.type"), |t: Easing3Type, p: int|
        if t == Easing3Type::StartEndSpeed {
            chain(sp_abc(d, p), |abc: EasingFloatWithoutRandom, p: int| Ok(((t, Some(abc)), p)))
        } else {
            Ok(((t, None), p))
        })
    } else {
        chain(sp_abc(d, p), |abc: EasingFloatWithoutRandom, p: int|
        Ok(((Easing3Type::StartEndSpeed, Some(abc)), p)))
    }
}

/// The channel mapping: read with the appended fields, else `identity`.
pub open spec fn sp_channel(d: Seq<u8>, p: int, append: bool, identity: i32) -> PR<i32> {
    if append {
        sp_i32(d, p)
    } else {
        Ok((identity, p))
    }
}

/// Per-component easing curves: a flag, then `n` curve codes.
pub open spec fn sp_individual(d: Seq<u8>, p: int, cfg: ParseConfig, append: bool, n: nat) -> PR<
    Option<Seq<Easing3Type>>,
> {
    if !append {
        Ok((None, p))
    } else {
        chain(sp_i32(d, p), |flag: i32, p: int|
        if flag != 0 {
            chain(
                sp_repeat(n, p, enum_item::<Easing3Type>(d, cfg, "Easing.individual_type")),
                |ts: Seq<Easing3Type>, p: int| Ok((Some(ts), p)),
            )
        } else {
            Ok((None, p))
        })
    }
}

/// A float easing. `mdv` is the first version with equation references and
/// `mav` the first with the appended fields.
#[verifier::opaque]
pub open spec fn sp_easing_float(d: Seq<u8>, p: int, version: i32, cfg: ParseConfig, mdv: i32, mav: i32) -> PR<
    SpecParameterEasingFloat,
> {
    chain(sp_opt_ref(d, p, version >= mdv), |ref_eq_s: RefMinMax, p: int|
    chain(sp_opt_ref(d, p, version >= mdv), |ref_eq_e: RefMinMax, p: int|
    chain(sp_random_float(d, p), |start: RandomFloat, p: int|
    chain(sp_random_float(d, p), |end: RandomFloat, p: int|
    chain(sp_middle_float(d, p, version >= mav), |middle: Option<MiddlePointFloat>, p: int|
    chain(sp_easing_kind(d, p, cfg, version >= mav), |k: (Easing3Type, Option<EasingFloatWithoutRandom>), p: int|
    chain(sp_channel(d, p, version >= mav, 0), |channel: i32, p: int|
    chain(sp_individual(d, p, cfg, version >= mav, 1), |individual_types: Option<Seq<Easing3Type>>, p: int|
    Ok((SpecParameterEasingFloat {
        ref_eq_s,
        ref_eq_e,
        start,
        end,
        middle,
        easing_type: k.0,
        easing_params: k.1,
        channel,
        individual_types,
    }, p))))))))))
}

/// A vector easing. `mdv` is the first version with equation references and
/// `mav` the first with the appended fields.
#[verifier::opaque]
pub open spec fn sp_easing_vector3d(d: Seq<u8>, p: int, version: i32, cfg: ParseConfig, mdv: i32, mav: i32) -> PR<
    SpecParameterEasingVector3D,
> {
    chain(sp_opt_ref(d, p, version >= mdv), |ref_eq_s: RefMinMax, p: int|
    chain(sp_opt_ref(d, p, version >= mdv), |ref_eq_e: RefMinMax, p: int|
    chain(sp_random_vector3d(d, p), |start: RandomVector3D, p: int|
    chain(sp_random_vector3d(d, p), |end: RandomVector3D, p: int|
    chain(sp_middle_vector3d(d, p, version >= mav), |middle: Option<MiddlePointVector3D>, p: int|
    chain(sp_easing_kind(d, p, cfg, version >= mav), |k: (Easing3Type, Option<EasingFloatWithoutRandom>), p: int|
    chain(sp_channel(d, p, version >= mav, 0x00020100), |channel: i32, p: int|
    chain(sp_individual(d, p, cfg, version >= mav, 3), |individual_types: Option<Seq<Easing3Type>>, p: int|
    Ok((SpecParameterEasingVector3D {
        ref_eq_s,
        ref_eq_e,
        start,
        end,
        middle,
        easing_type: k.0,
        easing_params: k.1,
        channel,
        individual_types,
    }, p))))))))))
}

fn read_opt_ref(reader: &mut BinaryReader, present: bool) -> (res: Result<RefMinMax, Error>)
    ensures
        final(reader).data() == old(reader).data(),
        final(reader).pos() >= old(reader).pos(),
        pr(res, final(reader).pos()) == sp_opt_ref(old(reader).data(), old(reader).pos(), present),
{
    if present {
        reader.read_ref_min_max()
    } else {
        Ok(no_ref())
    }
}

fn read_abc(reader: &mut BinaryReader) -> (res: Result<EasingFloatWithoutRandom, Error>)
    ensures
        final(reader).data() == old(reader).data(),
        final(reader).pos() >= old(reader).pos(),
        pr(res, final(reader).pos()) == sp_abc(old(reader).data(), old(reader).pos()),
{
    let a = reader.read_f32()?;
    let b = reader.read_f32()?;
    let c = reader.read_f32()?;
    Ok(EasingFloatWithoutRandom { a, b, c })
}

fn read_middle_float(reader: &mut BinaryReader, append: bool) -> (res: Result<Option<MiddlePointFloat>, Error>)
    ensures
        final(reader).data() == old(reader).data(),
        final(reader).pos() >= old(reader).pos(),
        pr(res, final(reader).pos()) == sp_middle_float(old(reader).data(), old(reader).pos(), append),
{
    if !append {
        return Ok(None);
    }
    let flag = reader.read_i32()?;
    if flag != 0 {
        let ref_eq_m = reader.read_ref_min_max()?;
        let middle = reader.read_random_float()?;
        Ok(Some(MiddlePointFloat { ref_eq_m, middle }))
    } else {
        Ok(None)
    }
}

fn read_middle_vector3d(reader: &mut BinaryReader, append: bool) -> (res: Result<Option<MiddlePointVector3D>, Error>)
    ensures
        final(reader).data() == old(reader).data(),
        final(reader).pos() >= old(reader).pos(),
        pr(res, final(reader).pos()) == sp_middle_vector3d(old(reader).data(), old(reader).pos(), append),
{
    if !append {
        return Ok(None);
    }
    let flag = reader.read_i32()?;
    if flag != 0 {
        let ref_eq_m = reader.read_ref_min_max()?;
        let middle = reader.read_random_vector3d()?;
        Ok(Some(MiddlePointVector3D { ref_eq_m, middle }))
    } else {
        Ok(None)
    }
}

fn read_easing_kind(reader: &mut BinaryReader, config: &ParseConfig, append: bool) -> (res: Result<
    (Easing3Type, Option<EasingFloatWithoutRandom>),
    Error,
>)
    ensures
        final(reader).data() == old(reader).data(),
        final(reader).pos() >= old(reader).pos(),
        pr(res, final(reader).pos()) == sp_easing_kind(old(reader).data(), old(reader).pos(), *config, append),
{
    if append {
        let t: Easing3Type = reader.read_enum(config, "Easing.type")?;
        if t == Easing3Type::StartEndSpeed {
            let abc = read_abc(reader)?;
            Ok((t, Some(abc)))
        } else {
            Ok((t, None))
        }
    } else {
        let abc = read_abc(reader)?;
        Ok((Easing3Type::StartEndSpeed, Some(abc)))
    }
}

fn read_channel(reader: &mut BinaryReader, append: bool, identity: i32) -> (res: Result<i32, Error>)
    ensures
        final(reader).data() == old(reader).data(),
        final(reader).pos() >= old(reader).pos(),
        pr(res, final(reader).pos()) == sp_channel(old(reader).data(), old(reader).pos(), append, identity),
{
    if append {
        reader.read_i32()
    } else {
        Ok(identity)
    }
}

fn read_individual(reader: &mut BinaryReader, config: &ParseConfig, append: bool, n: usize) -> (res: Result<
    Option<Vec<Easing3Type>>,
    Error,
>)
    ensures
        final(reader).data() == old(reader).data(),
        final(reader).pos() >= old(reader).pos(),
        pro(res, final(reader).pos()) == sp_individual(old(reader).data(), old(reader).pos(), *config, append, n as nat),
{
    if !append {
        return Ok(None);
    }
    let flag = reader.read_i32()?;
    if flag != 0 {
        let ts = reader.read_enum_seq::<Easing3Type>(n, config, "Easing.individual_type")?;
        Ok(Some(ts))
    } else {
        Ok(None)
    }
}

/// Parse a ParameterEasingFloat (one element).
///
/// `min_dynamic_version` and `min_append_version` control which fields are read.
pub fn parse_easing_float(
    reader: &mut BinaryReader,
    version: i32,
    config: &ParseConfig,
    min_dynamic_version: i32,
    min_append_version: i32,
) -> (res: Result<ParameterEasingFloat, Error>)
    ensures
        final(reader).data() == old(reader).data(),
        final(reader).pos() >= old(reader).pos(),
        prv(res, final(reader).pos()) == sp_easing_float(
            old(reader).data(),
            old(reader).pos(),
            version,
            *config,
            min_dynamic_version,
            min_append_version,
        ),
{
    proof {
        reveal(sp_easing_float);
        reveal(sp_easing_vector3d);
    }
    let dynamic = version >= min_dynamic_version;
    let append = version >= min_append_version;
    let ref_eq_s = read_opt_ref(reader, dynamic)?;
    let ref_eq_e = read_opt_ref(reader, dynamic)?;
    let start = reader.read_random_float()?;
    let end = reader.read_random_float()?;
    let middle = read_middle_float(reader, append)?;
    let kind = read_easing_kind(reader, config, append)?;
    let channel = read_channel(reader, append, 0)?;
    let individual_types = read_individual(reader, config, append, 1)?;
    Ok(ParameterEasingFloat {
        ref_eq_s,
        ref_eq_e,
        start,
        end,
        middle,
        easing_type: kind.0,
        easing_params: kind.1,
        channel,
        individual_types,
    })
}

/// Parse a ParameterEasingVector3D (three elements).
///
/// `min_dynamic_version` and `min_append_version` control which fields are read.
pub fn parse_easing_vector3d(
    reader: &mut BinaryReader,
    version: i32,
    config: &ParseConfig,
    min_dynamic_version: i32,
    min_append_version: i32,
) -> (res: Result<ParameterEasingVector3D, Error>)
    ensures
        final(reader).data() == old(reader).data(),
        final(reader).pos() >= old(reader).pos(),
        prv(res, final(reader).pos()) == sp_easing_vector3d(
            old(reader).data(),
            old(reader).pos(),
            version,
            *config,
            min_dynamic_version,
            min_append_version,
        ),
{
    proof {
        reveal(sp_easing_float);
        reveal(sp_easing_vector3d);
    }
    let dynamic = version >= min_dynamic_version;
    let append = version >= min_append_version;
    let ref_eq_s = read_opt_ref(reader, dynamic)?;
    let ref_eq_e = read_opt_ref(reader, dynamic)?;
    let start = reader.read_random_vector3d()?;
    let end = reader.read_random_vector3d()?;
    let middle = read_middle_vector3d(reader, append)?;
    let kind = read_easing_kind(reader, config, append)?;
    let channel = read_channel(reader, append, 0x00020100)?;
    let individual_types = read_individual(reader, config, append, 3)?;
    Ok(ParameterEasingVector3D {
        ref_eq_s,
        ref_eq_e,
        start,
        end,
        middle,
        easing_type: kind.0,
        easing_params: kind.1,
        channel,
        individual_types,
    })
}

/// Parse a ParameterEasingVector3D that stands in a block of `size` bytes
/// beginning at the current position; unread bytes of the block are skipped.
pub fn parse_vector3d_easing_with_size(
    reader: &mut BinaryReader,
    version: i32,
    config: &ParseConfig,
    min_dynamic_version: i32,
    min_append_version: i32,
    size: usize,
) -> (res: Result<ParameterEasingVector3D, Error>)
    ensures
        final(reader).data() == old(reader).data(),
        final(reader).pos() >= old(reader).pos(),
        prv(res, final(reader).pos()) == sp_sized(
            old(reader).data(),
            old(reader).pos(),
            size,
            sp_easing_vector3d(
                old(reader).data(),
                old(reader).pos(),
                version,
                *config,
                min_dynamic_version,
                min_append_version,
            ),
        ),
{
    let start = reader.position();
    let easing = parse_easing_vector3d(reader, version, config, min_dynamic_version, min_append_version)?;
    reader.skip_rest(start, size)?;
    Ok(easing)
}

} // verus!
