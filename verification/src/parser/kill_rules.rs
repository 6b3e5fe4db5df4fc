//! Kill rules parser (version 1704 and later).

use vstd::prelude::*;

use crate::config::ParseConfig;
use crate::error::Error;
use crate::reader::{chain, pr, sp_bool, sp_enum, sp_u32, sp_vector3d, BinaryReader, PR};
use crate::types::enums::KillType;
use crate::types::kill_rules::{KillRulesParameter, KillTypeParams};
use crate::types::primitives::Vector3D;

verus! {

/// The volume of a kill rule of the given kind. Other kinds read nothing.
pub open spec fn sp_kill_params(d: Seq<u8>, p: int, kill_type: KillType) -> PR<KillTypeParams> {
    match kill_type {
        KillType::Box =>
            chain(sp_vector3d(d, p), |center: Vector3D, p: int|
            chain(sp_vector3d(d, p), |size: Vector3D, p: int|
            chain(sp_bool(d, p), |is_kill_inside: bool, p: int|
            Ok((KillTypeParams::Box { center, size, is_kill_inside }, p))))),
        KillType::Plane =>
            chain(sp_vector3d(d, p), |plane_axis: Vector3D, p: int|
            chain(sp_u32(d, p), |plane_offset: u32, p: int|
            Ok((KillTypeParams::Plane { plane_axis, plane_offset }, p)))),
        KillType::Sphere =>
            chain(sp_vector3d(d, p), |center: Vector3D, p: int|
            chain(sp_u32(d, p), |radius: u32, p: int|
            chain(sp_bool(d, p), |is_kill_inside: bool, p: int|
            Ok((KillTypeParams::Sphere { center, radius, is_kill_inside }, p))))),
        _ => Ok((KillTypeParams::NoVolume, p)),
    }
}

/// Kill rules: from version 1704 the kind, the scale-and-rotation flag and
/// the volume; before it, no rule.
pub open spec fn sp_kill_rules(d: Seq<u8>, p: int, version: i32, cfg: ParseConfig) -> PR<KillRulesParameter> {
    if version >= 1704 {
        chain(sp_enum::<KillType>(d, p, cfg, "KillRules.type"), |kill_type: KillType, p: int|
        chain(sp_bool(d, p), |is_scale_and_rotation_applied: bool, p: int|
        chain(sp_kill_params(d, p, kill_type), |params: KillTypeParams, p: int|
        Ok((KillRulesParameter { kill_type, is_scale_and_rotation_applied, params }, p)))))
    } else {
        Ok((KillRulesParameter {
            kill_type: KillType::NoKill,
            is_scale_and_rotation_applied: false,
            params: KillTypeParams::NoVolume,
        }, p))
    }
}

fn parse_kill_params(reader: &mut BinaryReader, kill_type: KillType) -> (res: Result<KillTypeParams, Error>)
    ensures
        final(reader).data() == old(reader).data(),
        final(reader).pos() >= old(reader).pos(),
        pr(res, final(reader).pos()) == sp_kill_params(old(reader).data(), old(reader).pos(), kill_type),
{
    match kill_type {
        KillType::Box => {
            let center = reader.read_vector3d()?;
            let size = reader.read_vector3d()?;
            let is_kill_inside = reader.read_i32_as_bool()?;
            Ok(KillTypeParams::Box { center, size, is_kill_inside })
        },
        KillType::Plane => {
            let plane_axis = reader.read_vector3d()?;
            let plane_offset = reader.read_f32()?;
            Ok(KillTypeParams::Plane { plane_axis, plane_offset })
        },
        KillType::Sphere => {
            let center = reader.read_vector3d()?;
            let radius = reader.read_f32()?;
            let is_kill_inside = reader.read_i32_as_bool()?;
            Ok(KillTypeParams::Sphere { center, radius, is_kill_inside })
        },
        _ => Ok(KillTypeParams::NoVolume),
    }
}

/// Parse the kill rules of a node.
pub fn parse_kill_rules(reader: &mut BinaryReader, version: i32, config: &ParseConfig) -> (res: Result<KillRulesParameter, Error>)
    ensures
        final(reader).data() == old(reader).data(),
        final(reader).pos() >= old(reader).pos(),
        pr(res, final(reader).pos()) == sp_kill_rules(old(reader).data(), old(reader).pos(), version, *config),
{
    if version >= 1704 {
        let kill_type: KillType = reader.read_enum(config, "KillRules.type")?;
        let is_scale_and_rotation_applied = reader.read_i32_as_bool()?;
        let params = parse_kill_params(reader, kill_type)?;
        Ok(KillRulesParameter { kill_type, is_scale_and_rotation_applied, params })
    } else {
        Ok(KillRulesParameter {
            kill_type: KillType::NoKill,
            is_scale_and_rotation_applied: false,
            params: KillTypeParams::NoVolume,
        })
    }
}

} // verus!
