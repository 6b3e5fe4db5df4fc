//! Depth parameter parser.

use vstd::prelude::*;

use crate::config::ParseConfig;
use crate::error::Error;
use crate::reader::{chain, pr, sp_bool, sp_enum, sp_i32, sp_u32, BinaryReader, PR};
use crate::types::depth::ParameterDepthValues;
use crate::types::enums::ZSortType;

verus! {

/// Depth values: offset, two scaling flags, suppression, clipping, sorting,
/// priority, soft particle distance.
pub open spec fn sp_depth(d: Seq<u8>, p: int, cfg: ParseConfig) -> PR<ParameterDepthValues> {
    chain(sp_u32(d, p), |depth_offset: u32, p: int|
    chain(sp_bool(d, p), |is_depth_offset_scaled_with_camera: bool, p: int|
    chain(sp_bool(d, p), |is_depth_offset_scaled_with_particle_scale: bool, p: int|
    chain(sp_u32(d, p), |suppression_of_scaling_by_depth: u32, p: int|
    chain(sp_u32(d, p), |depth_clipping: u32, p: int|
    chain(sp_enum::<ZSortType>(d, p, cfg, "Depth.z_sort"), |z_sort: ZSortType, p: int|
    chain(sp_i32(d, p), |drawing_priority: i32, p: int|
    chain(sp_u32(d, p), |soft_particle: u32, p: int|
    Ok((ParameterDepthValues {
        depth_offset,
        is_depth_offset_scaled_with_camera,
        is_depth_offset_scaled_with_particle_scale,
        suppression_of_scaling_by_depth,
        depth_clipping,
        z_sort,
        drawing_priority,
        soft_particle,
    }, p))))))))))
}

/// Parse the depth values of a node.
pub fn parse_depth(reader: &mut BinaryReader, config: &ParseConfig) -> (res: Result<ParameterDepthValues, Error>)
    ensures
        final(reader).data() == old(reader).data(),
        final(reader).pos() >= old(reader).pos(),
        pr(res, final(reader).pos()) == sp_depth(old(reader).data(), old(reader).pos(), *config),
{
    let depth_offset = reader.read_f32()?;
    let is_depth_offset_scaled_with_camera = reader.read_i32_as_bool()?;
    let is_depth_offset_scaled_with_particle_scale = reader.read_i32_as_bool()?;
    let suppression_of_scaling_by_depth = reader.read_f32()?;
    let depth_clipping = reader.read_f32()?;
    let z_sort: ZSortType = reader.read_enum(config, "Depth.z_sort")?;
    let drawing_priority = reader.read_i32()?;
    let soft_particle = reader.read_f32()?;
    Ok(ParameterDepthValues {
        depth_offset,
        is_depth_offset_scaled_with_camera,
        is_depth_offset_scaled_with_particle_scale,
        suppression_of_scaling_by_depth,
        depth_clipping,
        z_sort,
        drawing_priority,
        soft_particle,
    })
}

} // verus!
