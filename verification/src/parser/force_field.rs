//! Local force field parser.

use vstd::prelude::*;

use crate::config::ParseConfig;
use crate::error::Error;
use crate::reader::{
    chain, lemma_repeat_err, pr, prv, sp_bool, sp_bytes, sp_enum, sp_i32, sp_repeat, sp_u32,
    sp_vector3d, BinaryReader, PR,
};
use crate::types::enums::{
    ForceFieldTurbulenceType, ForceFieldVortexType, LocalForceFieldFalloffType, LocalForceFieldType,
};
use crate::types::force_field::{
    ConeFalloff, ForceFieldFalloff, ForceFieldTypeParams, LocalForceFieldElement, TubeFalloff,
};
use crate::types::primitives::Vector3D;

verus! {

/// The bits of the `f32` value `1.0`.
pub const F32_ONE_BITS: u32 = 0x3F80_0000u32;

/// The zero vector.
pub open spec fn spec_zero_vector() -> Vector3D {
    Vector3D { x: 0, y: 0, z: 0 }
}

/// Power, position and rotation: read from version 1600 on, else `1.0` and zero vectors.
pub open spec fn sp_ff_placement(d: Seq<u8>, p: int, version: i32) -> PR<(u32, Vector3D, Vector3D)> {
    if version >= 1600 {
        chain(sp_u32(d, p), |power: u32, p: int|
        chain(sp_vector3d(d, p), |position: Vector3D, p: int|
        chain(sp_vector3d(d, p), |rotation: Vector3D, p: int|
        Ok(((power, position, rotation), p)))))
    } else {
        Ok(((F32_ONE_BITS, spec_zero_vector(), spec_zero_vector()), p))
    }
}

/// Turbulence parameters: kind (from version 1601, else `Complicated`), seed,
/// scale, strength (read only before version 1601, else the field's power), octave.
pub open spec fn sp_ff_turbulence(d: Seq<u8>, p: int, version: i32, cfg: ParseConfig, power: u32) -> PR<ForceFieldTypeParams> {
    chain(
        if version >= 1601 {
            sp_enum::<ForceFieldTurbulenceType>(d, p, cfg, "ForceField.turbulence_type")
        } else {
            Ok((ForceFieldTurbulenceType::Complicated, p))
        },
        |turbulence_type: ForceFieldTurbulenceType, p: int|
    chain(sp_i32(d, p), |seed: i32, p: int|
    chain(sp_u32(d, p), |scale: u32, p: int|
    chain(if version < 1601 { sp_u32(d, p) } else { Ok((power, p)) }, |strength: u32, p: int|
    chain(sp_i32(d, p), |octave: i32, p: int|
    Ok((ForceFieldTypeParams::Turbulence { turbulence_type, seed, scale, strength, octave }, p)))))))
}

/// The kind-specific parameters of a field.
pub open spec fn sp_ff_type_params(d: Seq<u8>, p: int, version: i32, cfg: ParseConfig, t: LocalForceFieldType, power: u32) -> PR<
    ForceFieldTypeParams,
> {
    match t {
        LocalForceFieldType::Force => chain(sp_bool(d, p), |gravitation: bool, p: int|
            Ok((ForceFieldTypeParams::Force { gravitation }, p))),
        LocalForceFieldType::Wind => Ok((ForceFieldTypeParams::Wind, p)),
        LocalForceFieldType::Vortex => chain(
            if version >= 1601 {
                chain(sp_enum::<ForceFieldVortexType>(d, p, cfg, "ForceField.vortex_type"),
                    |v: ForceFieldVortexType, p: int| Ok((Some(v), p)))
            } else {
                Ok((None, p))
            },
            |vortex_type: Option<ForceFieldVortexType>, p: int| Ok((ForceFieldTypeParams::Vortex { vortex_type }, p)),
        ),
        LocalForceFieldType::Turbulence => sp_ff_turbulence(d, p, version, cfg, power),
        LocalForceFieldType::Drag => Ok((ForceFieldTypeParams::Drag, p)),
        LocalForceFieldType::Gravity => chain(sp_vector3d(d, p), |gravity: Vector3D, p: int|
            Ok((ForceFieldTypeParams::Gravity { gravity }, p))),
        LocalForceFieldType::AttractiveForce =>
            chain(sp_u32(d, p), |control: u32, p: int|
            chain(sp_u32(d, p), |min_range: u32, p: int|
            chain(sp_u32(d, p), |max_range: u32, p: int|
            Ok((ForceFieldTypeParams::AttractiveForce { force: power, control, min_range, max_range }, p))))),
        _ => Ok((ForceFieldTypeParams::NoField, p)),
    }
}

/// Three `f32` values.
pub open spec fn sp_three_u32(d: Seq<u8>, p: int) -> PR<(u32, u32, u32)> {
    chain(sp_u32(d, p), |a: u32, p: int|
    chain(sp_u32(d, p), |b: u32, p: int|
    chain(sp_u32(d, p), |c: u32, p: int|
    Ok(((a, b, c), p)))))
}

/// A falloff of a given kind other than none: power, distances, then the
/// tube or cone data.
pub open spec fn sp_ff_falloff_body(d: Seq<u8>, p: int, falloff_type: LocalForceFieldFalloffType) -> PR<ForceFieldFalloff> {
    chain(sp_three_u32(d, p), |pd: (u32, u32, u32), p: int|
    chain(
        match falloff_type {
            LocalForceFieldFalloffType::Tube => chain(sp_three_u32(d, p), |t: (u32, u32, u32), p: int|
                Ok(((Some(TubeFalloff { radius_power: t.0, max_radius: t.1, min_radius: t.2 }), None), p))),
            LocalForceFieldFalloffType::Cone => chain(sp_three_u32(d, p), |c: (u32, u32, u32), p: int|
                Ok(((None, Some(ConeFalloff { angle_power: c.0, max_angle: c.1, min_angle: c.2 })), p))),
            _ => Ok(((None, None), p)),
        },
        |tc: (Option<TubeFalloff>, Option<ConeFalloff>), p: int|
    Ok((ForceFieldFalloff {
        falloff_type,
        power: pd.0,
        max_distance: pd.1,
        min_distance: pd.2,
        tube: tc.0,
        cone: tc.1,
    }, p))))
}

/// The optional falloff of a field (from version 1600).
pub open spec fn sp_ff_falloff(d: Seq<u8>, p: int, version: i32, cfg: ParseConfig) -> PR<Option<ForceFieldFalloff>> {
    if version >= 1600 {
        chain(sp_enum::<LocalForceFieldFalloffType>(d, p, cfg, "ForceField.falloff_type"), |t: LocalForceFieldFalloffType, p: int|
        if t != LocalForceFieldFalloffType::NoFalloff {
            chain(sp_ff_falloff_body(d, p, t), |f: ForceFieldFalloff, p: int| Ok((Some(f), p)))
        } else {
            Ok((None, p))
        })
    } else {
        Ok((None, p))
    }
}

/// One force field element.
pub open spec fn sp_force_field_element(d: Seq<u8>, p: int, version: i32, cfg: ParseConfig) -> PR<LocalForceFieldElement> {
    chain(sp_enum::<LocalForceFieldType>(d, p, cfg, "ForceField.type"), |field_type: LocalForceFieldType, p: int|
    chain(sp_ff_placement(d, p, version), |pl: (u32, Vector3D, Vector3D), p: int|
    chain(sp_ff_type_params(d, p, version, cfg, field_type, pl.0), |type_params: ForceFieldTypeParams, p: int|
    chain(sp_ff_falloff(d, p, version, cfg), |falloff: Option<ForceFieldFalloff>, p: int|
    Ok((LocalForceFieldElement {
        field_type,
        power: pl.0,
        position: pl.1,
        rotation: pl.2,
        type_params,
        falloff,
    }, p))))))
}

/// Reading one element, as an item of a repetition.
pub open spec fn force_field_item(d: Seq<u8>, version: i32, cfg: ParseConfig) -> spec_fn(int) -> PR<LocalForceFieldElement> {
    |p: int| sp_force_field_element(d, p, version, cfg)
}

/// The obsolete absorption block of versions up to 1600: a kind and a size;
/// the size's bytes are skipped unless the kind is `0`.
pub open spec fn sp_ff_absorption(d: Seq<u8>, p: int, version: i32) -> PR<()> {
    if version <= 1600 {
        chain(sp_i32(d, p), |abs_type: i32, p: int|
        chain(sp_i32(d, p), |size: i32, p: int|
        if abs_type == 0 {
            Ok(((), p))
        } else {
            chain(sp_bytes(d, p, size as usize as int), |b: Seq<u8>, p: int| Ok(((), p)))
        }))
    } else {
        Ok(((), p))
    }
}

/// The local force fields of a node: a count (at most 4), the elements, then
/// the obsolete absorption block of old versions.
pub open spec fn sp_force_fields(d: Seq<u8>, p: int, version: i32, cfg: ParseConfig) -> PR<Seq<LocalForceFieldElement>> {
    chain(sp_i32(d, p), |raw: i32, p: int|
    if raw as usize > 4 {
        Err(Error::ResourceLimitExceeded { field: "force_fields", count: raw as usize, max: 4 })
    } else {
        chain(sp_repeat(raw as usize as nat, p, force_field_item(d, version, cfg)), |es: Seq<LocalForceFieldElement>, p: int|
        chain(sp_ff_absorption(d, p, version), |u: (), p: int| Ok((es, p))))
    })
}

fn parse_ff_placement(reader: &mut BinaryReader, version: i32) -> (res: Result<(u32, Vector3D, Vector3D), Error>)
    ensures
        final(reader).data() == old(reader).data(),
        final(reader).pos() >= old(reader).pos(),
        pr(res, final(reader).pos()) == sp_ff_placement(old(reader).data(), old(reader).pos(), version),
{
    if version >= 1600 {
        let power = reader.read_f32()?;
        let position = reader.read_vector3d()?;
        let rotation = reader.read_vector3d()?;
        Ok((power, position, rotation))
    } else {
        let zero = Vector3D { x: 0, y: 0, z: 0 };
        Ok((F32_ONE_BITS, zero, zero))
    }
}

fn parse_ff_turbulence(reader: &mut BinaryReader, version: i32, config: &ParseConfig, power: u32) -> (res: Result<ForceFieldTypeParams, Error>)
    ensures
        final(reader).data() == old(reader).data(),
        final(reader).pos() >= old(reader).pos(),
        pr(res, final(reader).pos()) == sp_ff_turbulence(old(reader).data(), old(reader).pos(), version, *config, power),
{
    let turbulence_type = if version >= 1601 {
        reader.read_enum::<ForceFieldTurbulenceType>(config, "ForceField.turbulence_type")?
    } else {
        ForceFieldTurbulenceType::Complicated
    };
    let seed = reader.read_i32()?;
    let scale = reader.read_f32()?;
    let strength = if version < 1601 {
        reader.read_f32()?
    } else {
        power
    };
    let octave = reader.read_i32()?;
    Ok(ForceFieldTypeParams::Turbulence { turbulence_type, seed, scale, strength, octave })
}

fn parse_ff_type_params(
    reader: &mut BinaryReader,
    version: i32,
    config: &ParseConfig,
    t: LocalForceFieldType,
    power: u32,
) -> (res: Result<ForceFieldTypeParams, Error>)
    ensures
        final(reader).data() == old(reader).data(),
        final(reader).pos() >= old(reader).pos(),
        pr(res, final(reader).pos()) == sp_ff_type_params(old(reader).data(), old(reader).pos(), version, *config, t, power),
{
    match t {
        LocalForceFieldType::Force => {
            let gravitation = reader.read_i32_as_bool()?;
            Ok(ForceFieldTypeParams::Force { gravitation })
        },
        LocalForceFieldType::Wind => Ok(ForceFieldTypeParams::Wind),
        LocalForceFieldType::Vortex => {
            let vortex_type = if version >= 1601 {
                Some(reader.read_enum::<ForceFieldVortexType>(config, "ForceField.vortex_type")?)
            } else {
                None
            };
            Ok(ForceFieldTypeParams::Vortex { vortex_type })
        },
        LocalForceFieldType::Turbulence => parse_ff_turbulence(reader, version, config, power),
        LocalForceFieldType::Drag => Ok(ForceFieldTypeParams::Drag),
        LocalForceFieldType::Gravity => {
            let gravity = reader.read_vector3d()?;
            Ok(ForceFieldTypeParams::Gravity { gravity })
        },
        LocalForceFieldType::AttractiveForce => {
            let control = reader.read_f32()?;
            let min_range = reader.read_f32()?;
            let max_range = reader.read_f32()?;
            Ok(ForceFieldTypeParams::AttractiveForce { force: power, control, min_range, max_range })
        },
        _ => Ok(ForceFieldTypeParams::NoField),
    }
}

fn read_three(reader: &mut BinaryReader) -> (res: Result<(u32, u32, u32), Error>)
    ensures
        final(reader).data() == old(reader).data(),
        final(reader).pos() >= old(reader).pos(),
        pr(res, final(reader).pos()) == sp_three_u32(old(reader).data(), old(reader).pos()),
{
    let a = reader.read_f32()?;
    let b = reader.read_f32()?;
    let c = reader.read_f32()?;
    Ok((a, b, c))
}

fn parse_ff_falloff_body(reader: &mut BinaryReader, falloff_type: LocalForceFieldFalloffType) -> (res: Result<ForceFieldFalloff, Error>)
    ensures
        final(reader).data() == old(reader).data(),
        final(reader).pos() >= old(reader).pos(),
        pr(res, final(reader).pos()) == sp_ff_falloff_body(old(reader).data(), old(reader).pos(), falloff_type),
{
    let pd = read_three(reader)?;
    let tc: (Option<TubeFalloff>, Option<ConeFalloff>) = match falloff_type {
        LocalForceFieldFalloffType::Tube => {
            let t = read_three(reader)?;
            (Some(TubeFalloff { radius_power: t.0, max_radius: t.1, min_radius: t.2 }), None)
        },
        LocalForceFieldFalloffType::Cone => {
            let c = read_three(reader)?;
            (None, Some(ConeFalloff { angle_power: c.0, max_angle: c.1, min_angle: c.2 }))
        },
        _ => (None, None),
    };
    Ok(ForceFieldFalloff {
        falloff_type,
        power: pd.0,
        max_distance: pd.1,
        min_distance: pd.2,
        tube: tc.0,
        cone: tc.1,
    })
}

fn parse_ff_falloff(reader: &mut BinaryReader, version: i32, config: &ParseConfig) -> (res: Result<Option<ForceFieldFalloff>, Error>)
    ensures
        final(reader).data() == old(reader).data(),
        final(reader).pos() >= old(reader).pos(),
        pr(res, final(reader).pos()) == sp_ff_falloff(old(reader).data(), old(reader).pos(), version, *config),
{
    if version >= 1600 {
        let t: LocalForceFieldFalloffType = reader.read_enum(config, "ForceField.falloff_type")?;
        if t != LocalForceFieldFalloffType::NoFalloff {
            let f = parse_ff_falloff_body(reader, t)?;
            Ok(Some(f))
        } else {
            Ok(None)
        }
    } else {
        Ok(None)
    }
}

/// Parse one force field element.
pub fn parse_force_field_element(reader: &mut BinaryReader, version: i32, config: &ParseConfig) -> (res: Result<LocalForceFieldElement, Error>)
    ensures
        final(reader).data() == old(reader).data(),
        final(reader).pos() >= old(reader).pos(),
        pr(res, final(reader).pos()) == sp_force_field_element(old(reader).data(), old(reader).pos(), version, *config),
{
    let field_type: LocalForceFieldType = reader.read_enum(config, "ForceField.type")?;
    let pl = parse_ff_placement(reader, version)?;
    let type_params = parse_ff_type_params(reader, version, config, field_type, pl.0)?;
    let falloff = parse_ff_falloff(reader, version, config)?;
    Ok(LocalForceFieldElement {
        field_type,
        power: pl.0,
        position: pl.1,
        rotation: pl.2,
        type_params,
        falloff,
    })
}

fn parse_ff_absorption(reader: &mut BinaryReader, version: i32) -> (res: Result<(), Error>)
    ensures
        final(reader).data() == old(reader).data(),
        final(reader).pos() >= old(reader).pos(),
        pr(res, final(reader).pos()) == sp_ff_absorption(old(reader).data(), old(reader).pos(), version),
{
    if version <= 1600 {
        let abs_type = reader.read_i32()?;
        let size = #[verifier::truncate] (reader.read_i32()? as usize);
        if abs_type != 0 {
            reader.skip(size)?;
        }
    }
    Ok(())
}

/// Parse the local force fields of a node (at most 4).
#[verifier::loop_isolation(false)]
pub fn parse_force_fields(reader: &mut BinaryReader, version: i32, config: &ParseConfig) -> (res: Result<Vec<LocalForceFieldElement>, Error>)
    ensures
        final(reader).data() == old(reader).data(),
        final(reader).pos() >= old(reader).pos(),
        prv(res, final(reader).pos()) == sp_force_fields(old(reader).data(), old(reader).pos(), version, *config),
{
    let ghost d = reader.data();
    let raw = reader.read_i32()?;
    let count = #[verifier::truncate] (raw as usize);
    if count > 4 {
        return Err(Error::ResourceLimitExceeded { field: "force_fields", count, max: 4 });
    }
    let ghost p1 = reader.pos();
    let mut elements: Vec<LocalForceFieldElement> = Vec::new();
    let mut i: usize = 0;
    while i < count
        invariant
            reader.data() == d,
            reader.pos() >= p1,
            i <= count,
            sp_repeat(i as nat, p1, force_field_item(d, version, *config)) == Ok::<(Seq<LocalForceFieldElement>, int), Error>(
                (elements@, reader.pos()),
            ),
        decreases count - i,
    {
        let e = match parse_force_field_element(reader, version, config) {
            Ok(e) => e,
            Err(e) => {
                proof {
                    lemma_repeat_err((i + 1) as nat, count as nat, p1, force_field_item(d, version, *config));
                }
                return Err(e);
            },
        };
        elements.push(e);
        i = i + 1;
    }
    parse_ff_absorption(reader, version)?;
    Ok(elements)
}

} // verus!
