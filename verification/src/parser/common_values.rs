//! Common values parser (generation, removal, life).

use vstd::prelude::*;

use crate::config::ParseConfig;
use crate::error::Error;
use crate::reader::{
    chain, pr, sp_enum, sp_i32, sp_random_float, sp_random_int, sp_ref_min_max, sp_skip_rest,
    sp_u16, sp_u8, BinaryReader, IsUnknown, PR,
};
use crate::types::common_values::{
    GenerationParameter, ParameterCommonValues, RemovalParameter, RemovalTiming,
};
use crate::types::enums::{BindType, GenerationTiming, TranslationParentBindType, TriggerType};
use crate::types::primitives::{
    no_ref, spec_no_ref, RandomFloat, RandomInt, RefMinMax, TriggerValues,
};

verus! {

/// The trigger that is never fired.
pub open spec fn spec_default_trigger() -> TriggerValues {
    TriggerValues { type_: TriggerType::NoTrigger, index: 0 }
}

fn default_trigger() -> (t: TriggerValues)
    ensures
        t == spec_default_trigger(),
{
    TriggerValues { type_: TriggerType::NoTrigger, index: 0 }
}

/// The removal conditions of a raw bit set: unknown bits are dropped.
pub open spec fn removal_from_bits(raw: i32) -> RemovalTiming {
    RemovalTiming { bits: (raw as u32) & 0xFu32 }
}

/// The removal conditions of the three flags of older files.
pub open spec fn removal_from_flags(life: i32, parent: i32, children: i32) -> RemovalTiming {
    RemovalTiming {
        bits: (if life != 0 { 1u32 } else { 0u32 }) | (if parent != 0 { 2u32 } else { 0u32 }) | (
        if children != 0 { 4u32 } else { 0u32 }),
    }
}

/// A trigger packed in a `u16`: type in the low byte, index in the high byte.
pub open spec fn sp_trigger_u16(d: Seq<u8>, p: int) -> PR<TriggerValues> {
    chain(sp_u16(d, p), |v: u16, p: int|
    Ok((TriggerValues {
        type_: TriggerType::spec_from_code(((v & 0xFFu16) as u8) as i32),
        index: ((v >> 8u16) & 0xFFu16) as u8,
    }, p)))
}

/// The three inheritance modes.
pub open spec fn sp_bind_types(d: Seq<u8>, p: int, cfg: ParseConfig) -> PR<(TranslationParentBindType, BindType, BindType)> {
    chain(sp_enum::<TranslationParentBindType>(d, p, cfg, "CommonValues.translation_bind_type"), |t: TranslationParentBindType, p: int|
    chain(sp_enum::<BindType>(d, p, cfg, "CommonValues.rotation_bind_type"), |r: BindType, p: int|
    chain(sp_enum::<BindType>(d, p, cfg, "CommonValues.scaling_bind_type"), |s: BindType, p: int|
    Ok(((t, r, s), p)))))
}

/// The four equation references at the start of the common values:
/// maximum generation, life, interval and offset.
pub open spec fn sp_common_refs(d: Seq<u8>, p: int) -> PR<(i32, RefMinMax, RefMinMax, RefMinMax)> {
    chain(sp_i32(d, p), |g: i32, p: int|
    chain(sp_ref_min_max(d, p), |l: RefMinMax, p: int|
    chain(sp_ref_min_max(d, p), |i: RefMinMax, p: int|
    chain(sp_ref_min_max(d, p), |o: RefMinMax, p: int|
    Ok(((g, l, i, o), p))))))
}

/// The four triggers of version 1802: start, stop, remove, generate.
pub open spec fn sp_triggers_v18(d: Seq<u8>, p: int) -> PR<(TriggerValues, TriggerValues, TriggerValues, TriggerValues)> {
    chain(sp_trigger_u16(d, p), |a: TriggerValues, p: int|
    chain(sp_trigger_u16(d, p), |b: TriggerValues, p: int|
    chain(sp_trigger_u16(d, p), |c: TriggerValues, p: int|
    chain(sp_trigger_u16(d, p), |e: TriggerValues, p: int|
    Ok(((a, b, c, e), p))))))
}

/// Life, interval and offset.
pub open spec fn sp_life_interval_offset(d: Seq<u8>, p: int) -> PR<(RandomInt, RandomFloat, RandomFloat)> {
    chain(sp_random_int(d, p), |life: RandomInt, p: int|
    chain(sp_random_float(d, p), |interval: RandomFloat, p: int|
    chain(sp_random_float(d, p), |offset: RandomFloat, p: int|
    Ok(((life, interval, offset), p)))))
}

/// Common values of version 1802 from the fields read.
pub open spec fn common_v18(
    refs: (i32, RefMinMax, RefMinMax, RefMinMax),
    ref_eq_burst: RefMinMax,
    max_generation: i32,
    binds: (TranslationParentBindType, BindType, BindType),
    generation_type: GenerationTiming,
    removal_raw: i32,
    lio: (RandomInt, RandomFloat, RandomFloat),
    burst: RandomInt,
    tr: (TriggerValues, TriggerValues, TriggerValues, TriggerValues),
) -> ParameterCommonValues {
    ParameterCommonValues {
        ref_eq_max_generation: refs.0,
        ref_eq_life: refs.1,
        max_generation,
        translation_bind_type: binds.0,
        rotation_bind_type: binds.1,
        scaling_bind_type: binds.2,
        life: lio.0,
        generation: GenerationParameter {
            ref_eq_interval: refs.2,
            ref_eq_offset: refs.3,
            ref_eq_burst,
            type_: generation_type,
            interval: lio.1,
            offset: lio.2,
            burst,
            trigger_to_start: tr.0,
            trigger_to_stop: tr.1,
            trigger_to_generate: tr.3,
        },
        removal: RemovalParameter { flags: removal_from_bits(removal_raw), trigger_to_remove: tr.2 },
    }
}

/// Common values of versions before 1802 from the fields read.
pub open spec fn common_v17(
    refs: (i32, RefMinMax, RefMinMax, RefMinMax),
    max_generation: i32,
    binds: (TranslationParentBindType, BindType, BindType),
    flags: RemovalTiming,
    lio: (RandomInt, RandomFloat, RandomFloat),
) -> ParameterCommonValues {
    ParameterCommonValues {
        ref_eq_max_generation: refs.0,
        ref_eq_life: refs.1,
        max_generation,
        translation_bind_type: binds.0,
        rotation_bind_type: binds.1,
        scaling_bind_type: binds.2,
        life: lio.0,
        generation: GenerationParameter {
            ref_eq_interval: refs.2,
            ref_eq_offset: refs.3,
            ref_eq_burst: spec_no_ref(),
            type_: GenerationTiming::Continuous,
            interval: lio.1,
            offset: lio.2,
            burst: RandomInt { max: 1, min: 1 },
            trigger_to_start: spec_default_trigger(),
            trigger_to_stop: spec_default_trigger(),
            trigger_to_generate: spec_default_trigger(),
        },
        removal: RemovalParameter { flags, trigger_to_remove: spec_default_trigger() },
    }
}

/// Common values of version 1802 and later.
pub open spec fn sp_common_v18(d: Seq<u8>, p: int, cfg: ParseConfig) -> PR<ParameterCommonValues> {
    chain(sp_common_refs(d, p), |refs: (i32, RefMinMax, RefMinMax, RefMinMax), p: int|
    chain(sp_ref_min_max(d, p), |ref_eq_burst: RefMinMax, p: int|
    chain(sp_i32(d, p), |max_generation: i32, p: int|
    chain(sp_bind_types(d, p, cfg), |binds: (TranslationParentBindType, BindType, BindType), p: int|
    chain(sp_enum::<GenerationTiming>(d, p, cfg, "CommonValues.generation_type"), |generation_type: GenerationTiming, p: int|
    chain(sp_i32(d, p), |removal_raw: i32, p: int|
    chain(sp_life_interval_offset(d, p), |lio: (RandomInt, RandomFloat, RandomFloat), p: int|
    chain(sp_random_int(d, p), |burst: RandomInt, p: int|
    chain(sp_triggers_v18(d, p), |tr: (TriggerValues, TriggerValues, TriggerValues, TriggerValues), p: int|
    Ok((common_v18(refs, ref_eq_burst, max_generation, binds, generation_type, removal_raw, lio, burst, tr), p)))))))))))
}

/// The three removal flags of older files.
pub open spec fn sp_removal_flags(d: Seq<u8>, p: int) -> PR<RemovalTiming> {
    chain(sp_i32(d, p), |life_flag: i32, p: int|
    chain(sp_i32(d, p), |parent_flag: i32, p: int|
    chain(sp_i32(d, p), |children_flag: i32, p: int|
    Ok((removal_from_flags(life_flag, parent_flag, children_flag), p)))))
}

/// Common values of versions before 1802: no burst, no triggers, three removal flags.
pub open spec fn sp_common_v17(d: Seq<u8>, p: int, cfg: ParseConfig) -> PR<ParameterCommonValues> {
    chain(sp_common_refs(d, p), |refs: (i32, RefMinMax, RefMinMax, RefMinMax), p: int|
    chain(sp_i32(d, p), |max_generation: i32, p: int|
    chain(sp_bind_types(d, p, cfg), |binds: (TranslationParentBindType, BindType, BindType), p: int|
    chain(sp_removal_flags(d, p), |flags: RemovalTiming, p: int|
    chain(sp_life_interval_offset(d, p), |lio: (RandomInt, RandomFloat, RandomFloat), p: int|
    Ok((common_v17(refs, max_generation, binds, flags, lio), p)))))))
}

/// A sized block of common values (layout by version); unread bytes of the
/// block are skipped.
pub open spec fn sp_common_values(d: Seq<u8>, p: int, version: i32, cfg: ParseConfig) -> PR<ParameterCommonValues> {
    chain(sp_i32(d, p), |size: i32, start: int|
    chain(
        if version >= 1802 { sp_common_v18(d, start, cfg) } else { sp_common_v17(d, start, cfg) },
        |cv: ParameterCommonValues, q: int|
        chain(sp_skip_rest(d, start, size as usize, q), |u: (), q: int| Ok((cv, q))),
    ))
}

fn read_trigger_u16(reader: &mut BinaryReader) -> (res: Result<TriggerValues, Error>)
    ensures
        final(reader).data() == old(reader).data(),
        final(reader).pos() >= old(reader).pos(),
        pr(res, final(reader).pos()) == sp_trigger_u16(old(reader).data(), old(reader).pos()),
{
    let val = reader.read_u16()?;
    let type_raw = (val & 0xFF) as u8;
    let index = ((val >> 8) & 0xFF) as u8;
    Ok(TriggerValues { type_: TriggerType::from_code(type_raw as i32), index })
}

fn read_bind_types(reader: &mut BinaryReader, config: &ParseConfig) -> (res: Result<(TranslationParentBindType, BindType, BindType), Error>)
    ensures
        final(reader).data() == old(reader).data(),
        final(reader).pos() >= old(reader).pos(),
        pr(res, final(reader).pos()) == sp_bind_types(old(reader).data(), old(reader).pos(), *config),
{
    let t: TranslationParentBindType = reader.read_enum(config, "CommonValues.translation_bind_type")?;
    let r: BindType = reader.read_enum(config, "CommonValues.rotation_bind_type")?;
    let s: BindType = reader.read_enum(config, "CommonValues.scaling_bind_type")?;
    Ok((t, r, s))
}

fn read_common_refs(reader: &mut BinaryReader) -> (res: Result<(i32, RefMinMax, RefMinMax, RefMinMax), Error>)
    ensures
        final(reader).data() == old(reader).data(),
        final(reader).pos() >= old(reader).pos(),
        pr(res, final(reader).pos()) == sp_common_refs(old(reader).data(), old(reader).pos()),
{
    let g = reader.read_i32()?;
    let l = reader.read_ref_min_max()?;
    let i = reader.read_ref_min_max()?;
    let o = reader.read_ref_min_max()?;
    Ok((g, l, i, o))
}

fn read_triggers_v18(reader: &mut BinaryReader) -> (res: Result<(TriggerValues, TriggerValues, TriggerValues, TriggerValues), Error>)
    ensures
        final(reader).data() == old(reader).data(),
        final(reader).pos() >= old(reader).pos(),
        pr(res, final(reader).pos()) == sp_triggers_v18(old(reader).data(), old(reader).pos()),
{
    let a = read_trigger_u16(reader)?;
    let b = read_trigger_u16(reader)?;
    let c = read_trigger_u16(reader)?;
    let e = read_trigger_u16(reader)?;
    Ok((a, b, c, e))
}

fn read_life_interval_offset(reader: &mut BinaryReader) -> (res: Result<(RandomInt, RandomFloat, RandomFloat), Error>)
    ensures
        final(reader).data() == old(reader).data(),
        final(reader).pos() >= old(reader).pos(),
        pr(res, final(reader).pos()) == sp_life_interval_offset(old(reader).data(), old(reader).pos()),
{
    let life = reader.read_random_int()?;
    let interval = reader.read_random_float()?;
    let offset = reader.read_random_float()?;
    Ok((life, interval, offset))
}

fn read_removal_flags(reader: &mut BinaryReader) -> (res: Result<RemovalTiming, Error>)
    ensures
        final(reader).data() == old(reader).data(),
        final(reader).pos() >= old(reader).pos(),
        pr(res, final(reader).pos()) == sp_removal_flags(old(reader).data(), old(reader).pos()),
{
    let life_flag = reader.read_i32()?;
    let parent_flag = reader.read_i32()?;
    let children_flag = reader.read_i32()?;
    let bits: u32 = (if life_flag != 0 { 1u32 } else { 0u32 }) | (if parent_flag != 0 { 2u32 } else { 0u32 }) | (
    if children_flag != 0 { 4u32 } else { 0u32 });
    Ok(RemovalTiming { bits })
}

fn parse_v18(reader: &mut BinaryReader, config: &ParseConfig) -> (res: Result<ParameterCommonValues, Error>)
    ensures
        final(reader).data() == old(reader).data(),
        final(reader).pos() >= old(reader).pos(),
        pr(res, final(reader).pos()) == sp_common_v18(old(reader).data(), old(reader).pos(), *config),
{
    let refs = read_common_refs(reader)?;
    let ref_eq_burst = reader.read_ref_min_max()?;
    let max_generation = reader.read_i32()?;
    let binds = read_bind_types(reader, config)?;
    let generation_type: GenerationTiming = reader.read_enum(config, "CommonValues.generation_type")?;
    let removal_raw = reader.read_i32()?;
    let flags = RemovalTiming { bits: (#[verifier::truncate] (removal_raw as u32)) & 0xF };
    let lio = read_life_interval_offset(reader)?;
    let burst = reader.read_random_int()?;
    let tr = read_triggers_v18(reader)?;
    Ok(ParameterCommonValues {
        ref_eq_max_generation: refs.0,
        ref_eq_life: refs.1,
        max_generation,
        translation_bind_type: binds.0,
        rotation_bind_type: binds.1,
        scaling_bind_type: binds.2,
        life: lio.0,
        generation: GenerationParameter {
            ref_eq_interval: refs.2,
            ref_eq_offset: refs.3,
            ref_eq_burst,
            type_: generation_type,
            interval: lio.1,
            offset: lio.2,
            burst,
            trigger_to_start: tr.0,
            trigger_to_stop: tr.1,
            trigger_to_generate: tr.3,
        },
        removal: RemovalParameter { flags, trigger_to_remove: tr.2 },
    })
}

fn parse_v17(reader: &mut BinaryReader, config: &ParseConfig) -> (res: Result<ParameterCommonValues, Error>)
    ensures
        final(reader).data() == old(reader).data(),
        final(reader).pos() >= old(reader).pos(),
        pr(res, final(reader).pos()) == sp_common_v17(old(reader).data(), old(reader).pos(), *config),
{
    let refs = read_common_refs(reader)?;
    let max_generation = reader.read_i32()?;
    let binds = read_bind_types(reader, config)?;
    let flags = read_removal_flags(reader)?;
    let lio = read_life_interval_offset(reader)?;
    Ok(ParameterCommonValues {
        ref_eq_max_generation: refs.0,
        ref_eq_life: refs.1,
        max_generation,
        translation_bind_type: binds.0,
        rotation_bind_type: binds.1,
        scaling_bind_type: binds.2,
        life: lio.0,
        generation: GenerationParameter {
            ref_eq_interval: refs.2,
            ref_eq_offset: refs.3,
            ref_eq_burst: no_ref(),
            type_: GenerationTiming::Continuous,
            interval: lio.1,
            offset: lio.2,
            burst: RandomInt { max: 1, min: 1 },
            trigger_to_start: default_trigger(),
            trigger_to_stop: default_trigger(),
            trigger_to_generate: default_trigger(),
        },
        removal: RemovalParameter { flags, trigger_to_remove: default_trigger() },
    })
}

/// Parse the common values block: `size: i32`, then the version's layout;
/// bytes of the block that the layout does not read are skipped.
pub fn parse_common_values(reader: &mut BinaryReader, version: i32, config: &ParseConfig) -> (res: Result<ParameterCommonValues, Error>)
    ensures
        final(reader).data() == old(reader).data(),
        final(reader).pos() >= old(reader).pos(),
        pr(res, final(reader).pos()) == sp_common_values(old(reader).data(), old(reader).pos(), version, *config),
{
    let size = #[verifier::truncate] (reader.read_i32()? as usize);
    let start_pos = reader.position();
    let result = if version >= 1802 {
        parse_v18(reader, config)?
    } else {
        parse_v17(reader, config)?
    };
    reader.skip_rest(start_pos, size)?;
    Ok(result)
}

/// Trigger settings of versions 1701 to 1801, applied to `common`: a flag byte,
/// then a (type, index) byte pair for each flagged trigger.
pub open spec fn sp_trigger_pair(d: Seq<u8>, p: int) -> PR<TriggerValues> {
    chain(sp_u8(d, p), |t: u8, p: int|
    chain(sp_u8(d, p), |index: u8, p: int|
    Ok((TriggerValues { type_: TriggerType::spec_from_code(t as i32), index }, p))))
}

/// An optional trigger, present when `present`.
pub open spec fn sp_opt_trigger(d: Seq<u8>, p: int, present: bool) -> PR<Option<TriggerValues>> {
    if present {
        chain(sp_trigger_pair(d, p), |t: TriggerValues, p: int| Ok((Some(t), p)))
    } else {
        Ok((None, p))
    }
}

/// Common values with the triggers of versions 1701 to 1801 applied.
pub open spec fn apply_triggers(
    c: ParameterCommonValues,
    start: Option<TriggerValues>,
    stop: Option<TriggerValues>,
    remove: Option<TriggerValues>,
) -> ParameterCommonValues {
    let g1 = match start {
        Some(t) => GenerationParameter { trigger_to_start: t, ..c.generation },
        None => c.generation,
    };
    let g2 = match stop {
        Some(t) => GenerationParameter { trigger_to_stop: t, ..g1 },
        None => g1,
    };
    let r = match remove {
        Some(t) => RemovalParameter {
            trigger_to_remove: t,
            flags: if t.type_ != TriggerType::NoTrigger {
                RemovalTiming { bits: c.removal.flags.bits | 8u32 }
            } else {
                c.removal.flags
            },
        },
        None => c.removal,
    };
    ParameterCommonValues { generation: g2, removal: r, ..c }
}

/// The trigger block and the common values it yields.
pub open spec fn sp_trigger_param(d: Seq<u8>, p: int, version: i32, c: ParameterCommonValues) -> PR<ParameterCommonValues> {
    if version < 1701 || version >= 1802 {
        Ok((c, p))
    } else {
        chain(sp_u8(d, p), |flags: u8, p: int|
        chain(sp_opt_trigger(d, p, flags & 1u8 != 0), |start: Option<TriggerValues>, p: int|
        chain(sp_opt_trigger(d, p, flags & 2u8 != 0), |stop: Option<TriggerValues>, p: int|
        chain(sp_opt_trigger(d, p, flags & 4u8 != 0), |remove: Option<TriggerValues>, p: int|
        Ok((apply_triggers(c, start, stop, remove), p))))))
    }
}

fn read_trigger_pair(reader: &mut BinaryReader) -> (res: Result<TriggerValues, Error>)
    ensures
        final(reader).data() == old(reader).data(),
        final(reader).pos() >= old(reader).pos(),
        pr(res, final(reader).pos()) == sp_trigger_pair(old(reader).data(), old(reader).pos()),
{
    let t = reader.read_u8()?;
    let index = reader.read_u8()?;
    Ok(TriggerValues { type_: TriggerType::from_code(t as i32), index })
}

/// Parse the trigger block of versions 1701 to 1801 into `common`. For other
/// versions nothing is read. On error `common` may hold the triggers read
/// before the failing one.
pub fn parse_trigger_param(reader: &mut BinaryReader, version: i32, common: &mut ParameterCommonValues) -> (res: Result<(), Error>)
    ensures
        final(reader).data() == old(reader).data(),
        final(reader).pos() >= old(reader).pos(),
        match sp_trigger_param(old(reader).data(), old(reader).pos(), version, *old(common)) {
            Ok((c, q)) => res is Ok && *final(common) == c && final(reader).pos() == q,
            Err(e) => res == Err::<(), Error>(e),
        },
{
    if version < 1701 || version >= 1802 {
        return Ok(());
    }
    let flags = reader.read_u8()?;
    if flags & 1 != 0 {
        common.generation.trigger_to_start = read_trigger_pair(reader)?;
    }
    if flags & 2 != 0 {
        common.generation.trigger_to_stop = read_trigger_pair(reader)?;
    }
    if flags & 4 != 0 {
        let trigger = read_trigger_pair(reader)?;
        common.removal.trigger_to_remove = trigger;
        if trigger.type_ != TriggerType::NoTrigger {
            common.removal.flags.bits = common.removal.flags.bits | 8;
        }
    }
    Ok(())
}

} // verus!
