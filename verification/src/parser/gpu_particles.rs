//! GPU particle parameters parser (version 1800 and later).

use vstd::prelude::*;

use crate::config::ParseConfig;
use crate::error::Error;
use crate::reader::{
    chain, pr, prv, sp_color, sp_enum_u8, sp_i32, sp_u32, sp_u8, sp_vector2d, sp_vector3d,
    BinaryReader, IsUnknown, PR,
};
use crate::types::enums::{
    AlphaBlendType, BindType, GpuColorParamType, GpuColorSpaceType, GpuEmitShape, GpuMaterialType,
    GpuRenderShape, GpuScaleType, TextureFilterType, TextureWrapType,
};
use crate::types::fcurve::SpecFCurveVectorColor;
use crate::types::gpu_particles::{
    GpuBasicParams, GpuColorData, GpuEmitShapeData, GpuEmitShapeParams, GpuForceParams,
    GpuParticlesParameter, GpuRenderBasicParams, GpuRenderColorParams, GpuRenderMaterialParams,
    GpuRenderShapeParams, GpuRotationParams, GpuScale4, GpuScaleData, GpuScaleParams,
    GpuVelocityParams, SpecGpuColorData, SpecGpuParticlesParameter, SpecGpuRenderColorParams,
};
use crate::types::gradient::SpecGradient;
use crate::types::primitives::{Color, ColorRange, Quad, Vector2D, Vector3D, Vector3DPair};

use super::fcurve::{parse_fcurve_vector_color, sp_fcurve_vector_color};
use super::gradient::{parse_gradient, sp_gradient};

verus! {

/// Basic emission parameters.
pub open spec fn sp_gpu_basic(d: Seq<u8>, p: int) -> PR<GpuBasicParams> {
    chain(sp_i32(d, p), |emit_count: i32, p: int|
    chain(sp_i32(d, p), |emit_per_frame: i32, p: int|
    chain(sp_u32(d, p), |emit_offset: u32, p: int|
    chain(sp_vector2d(d, p), |life_time: Vector2D, p: int|
    Ok((GpuBasicParams { emit_count, emit_per_frame, emit_offset, life_time }, p))))))
}

/// The data of an emission shape. An unknown shape reads nothing and stands for a point.
pub open spec fn sp_gpu_emit_data(d: Seq<u8>, p: int, t: GpuEmitShape) -> PR<GpuEmitShapeData> {
    match t {
        GpuEmitShape::Line =>
            chain(sp_vector3d(d, p), |start: Vector3D, p: int|
            chain(sp_vector3d(d, p), |end: Vector3D, p: int|
            chain(sp_u32(d, p), |width: u32, p: int|
            Ok((GpuEmitShapeData::Line { start, end, width }, p))))),
        GpuEmitShape::Circle =>
            chain(sp_vector3d(d, p), |axis: Vector3D, p: int|
            chain(sp_u32(d, p), |inner: u32, p: int|
            chain(sp_u32(d, p), |outer: u32, p: int|
            Ok((GpuEmitShapeData::Circle { axis, inner, outer }, p))))),
        GpuEmitShape::Sphere => chain(sp_u32(d, p), |radius: u32, p: int| Ok((GpuEmitShapeData::Sphere { radius }, p))),
        GpuEmitShape::Model =>
            chain(sp_i32(d, p), |index: i32, p: int|
            chain(sp_u32(d, p), |size: u32, p: int|
            Ok((GpuEmitShapeData::Model { index, size }, p)))),
        _ => Ok((GpuEmitShapeData::Point, p)),
    }
}

/// The emission shape: kind byte, rotation flag byte, the kind's data.
pub open spec fn sp_gpu_emit_shape(d: Seq<u8>, p: int, cfg: ParseConfig) -> PR<GpuEmitShapeParams> {
    chain(sp_enum_u8::<GpuEmitShape>(d, p, cfg, "GpuParticles.emit_shape"), |shape_type: GpuEmitShape, p: int|
    chain(sp_u8(d, p), |r: u8, p: int|
    chain(sp_gpu_emit_data(d, p, shape_type), |data: GpuEmitShapeData, p: int|
    Ok((GpuEmitShapeParams { shape_type, rotation_applied: r != 0, data }, p)))))
}

/// Velocity parameters.
pub open spec fn sp_gpu_velocity(d: Seq<u8>, p: int) -> PR<GpuVelocityParams> {
    chain(sp_vector3d(d, p), |direction: Vector3D, p: int|
    chain(sp_u32(d, p), |spread: u32, p: int|
    chain(sp_vector2d(d, p), |initial_speed: Vector2D, p: int|
    chain(sp_vector2d(d, p), |damping: Vector2D, p: int|
    Ok((GpuVelocityParams { direction, spread, initial_speed, damping }, p))))))
}

/// Two vectors.
pub open spec fn sp_vector3d_pair(d: Seq<u8>, p: int) -> PR<Vector3DPair> {
    chain(sp_vector3d(d, p), |first: Vector3D, p: int|
    chain(sp_vector3d(d, p), |second: Vector3D, p: int|
    Ok((Vector3DPair { first, second }, p))))
}

/// Rotation parameters.
pub open spec fn sp_gpu_rotation(d: Seq<u8>, p: int) -> PR<GpuRotationParams> {
    chain(sp_vector3d_pair(d, p), |offset: Vector3DPair, p: int|
    chain(sp_vector3d_pair(d, p), |velocity: Vector3DPair, p: int|
    Ok((GpuRotationParams { offset, velocity }, p))))
}

/// A scale range: uniform bounds and per-axis bounds.
pub open spec fn sp_gpu_scale4(d: Seq<u8>, p: int) -> PR<GpuScale4> {
    chain(sp_u32(d, p), |uniform_min: u32, p: int|
    chain(sp_u32(d, p), |uniform_max: u32, p: int|
    chain(sp_vector3d(d, p), |axis_min: Vector3D, p: int|
    chain(sp_vector3d(d, p), |axis_max: Vector3D, p: int|
    Ok((GpuScale4 { uniform_min, uniform_max, axis_min, axis_max }, p))))))
}

/// The error for scale kinds that GPU particles do not support.
pub open spec fn gpu_scale_error() -> Error {
    Error::InvalidEnumValue { field: "GpuParticles.scale_type", value: 1 }
}

/// Scale parameters: fixed or eased. Any other kind is rejected.
pub open spec fn sp_gpu_scale(d: Seq<u8>, p: int, cfg: ParseConfig) -> PR<GpuScaleParams> {
    chain(sp_enum_u8::<GpuScaleType>(d, p, cfg, "GpuParticles.scale_type"), |scale_type: GpuScaleType, p: int|
    match scale_type {
        GpuScaleType::Fixed => chain(sp_gpu_scale4(d, p), |scale: GpuScale4, p: int|
            Ok((GpuScaleParams { scale_type, data: GpuScaleData::Fixed { scale } }, p))),
        GpuScaleType::Easing =>
            chain(sp_gpu_scale4(d, p), |start: GpuScale4, p: int|
            chain(sp_gpu_scale4(d, p), |end: GpuScale4, p: int|
            chain(sp_vector3d(d, p), |speed: Vector3D, p: int|
            Ok((GpuScaleParams { scale_type, data: GpuScaleData::Easing { start, end, speed } }, p))))),
        _ => Err(gpu_scale_error()),
    })
}

/// Vortex parameters: rotation, attraction, center, axis.
pub open spec fn sp_gpu_vortex(d: Seq<u8>, p: int) -> PR<(u32, u32, Vector3D, Vector3D)> {
    chain(sp_u32(d, p), |rotation: u32, p: int|
    chain(sp_u32(d, p), |attraction: u32, p: int|
    chain(sp_vector3d(d, p), |center: Vector3D, p: int|
    chain(sp_vector3d(d, p), |axis: Vector3D, p: int|
    Ok(((rotation, attraction, center, axis), p))))))
}

/// Turbulence parameters: power, seed, scale, octave.
pub open spec fn sp_gpu_turbulence(d: Seq<u8>, p: int) -> PR<(u32, i32, u32, i32)> {
    chain(sp_u32(d, p), |power: u32, p: int|
    chain(sp_i32(d, p), |seed: i32, p: int|
    chain(sp_u32(d, p), |scale: u32, p: int|
    chain(sp_i32(d, p), |octave: i32, p: int|
    Ok(((power, seed, scale, octave), p))))))
}

/// Force parameters.
pub open spec fn sp_gpu_force(d: Seq<u8>, p: int) -> PR<GpuForceParams> {
    chain(sp_vector3d(d, p), |gravity: Vector3D, p: int|
    chain(sp_gpu_vortex(d, p), |v: (u32, u32, Vector3D, Vector3D), p: int|
    chain(sp_gpu_turbulence(d, p), |t: (u32, i32, u32, i32), p: int|
    Ok((GpuForceParams {
        gravity,
        vortex_rotation: v.0,
        vortex_attraction: v.1,
        vortex_center: v.2,
        vortex_axis: v.3,
        turbulence_power: t.0,
        turbulence_seed: t.1,
        turbulence_scale: t.2,
        turbulence_octave: t.3,
    }, p)))))
}

/// Basic render parameters: blend code, Z write and Z test bytes.
pub open spec fn sp_gpu_render_basic(d: Seq<u8>, p: int) -> PR<GpuRenderBasicParams> {
    chain(sp_u8(d, p), |blend: u8, p: int|
    chain(sp_u8(d, p), |zw: u8, p: int|
    chain(sp_u8(d, p), |zt: u8, p: int|
    Ok((GpuRenderBasicParams {
        blend_type: AlphaBlendType::spec_from_code(blend as i32),
        z_write: zw != 0,
        z_test: zt != 0,
    }, p)))))
}

/// Render shape parameters: kind byte, data, size.
pub open spec fn sp_gpu_render_shape(d: Seq<u8>, p: int, cfg: ParseConfig) -> PR<GpuRenderShapeParams> {
    chain(sp_enum_u8::<GpuRenderShape>(d, p, cfg, "GpuParticles.render_shape"), |shape_type: GpuRenderShape, p: int|
    chain(sp_u32(d, p), |data: u32, p: int|
    chain(sp_u32(d, p), |size: u32, p: int|
    Ok((GpuRenderShapeParams { shape_type, data, size }, p)))))
}

/// A color range (minimum, then maximum).
pub open spec fn sp_color_range(d: Seq<u8>, p: int) -> PR<ColorRange> {
    chain(sp_color(d, p), |min: Color, p: int|
    chain(sp_color(d, p), |max: Color, p: int|
    Ok((ColorRange { min, max }, p))))
}

/// The color data of a kind. An unknown kind reads nothing and stands for fixed white.
pub open spec fn sp_gpu_color_data(d: Seq<u8>, p: int, cfg: ParseConfig, t: GpuColorParamType) -> PR<SpecGpuColorData> {
    match t {
        GpuColorParamType::Fixed => chain(sp_color(d, p), |c: Color, p: int| Ok((SpecGpuColorData::Fixed(c), p))),
        GpuColorParamType::Random => chain(sp_color_range(d, p), |r: ColorRange, p: int|
            Ok((SpecGpuColorData::Random(r.min, r.max), p))),
        GpuColorParamType::Easing =>
            chain(sp_color_range(d, p), |start: ColorRange, p: int|
            chain(sp_color_range(d, p), |end: ColorRange, p: int|
            chain(sp_vector3d(d, p), |speed: Vector3D, p: int|
            Ok((SpecGpuColorData::Easing { start, end, speed }, p))))),
        GpuColorParamType::FCurve => chain(sp_fcurve_vector_color(d, p, cfg), |f: SpecFCurveVectorColor, p: int|
            Ok((SpecGpuColorData::FCurve(f), p))),
        GpuColorParamType::Gradient => chain(sp_gradient(d, p), |g: SpecGradient, p: int|
            Ok((SpecGpuColorData::Gradient(g), p))),
        GpuColorParamType::Unknown(_) => Ok((SpecGpuColorData::Fixed(Color { r: 255, g: 255, b: 255, a: 255 }), p)),
    }
}

/// Render color parameters.
pub open spec fn sp_gpu_render_color(d: Seq<u8>, p: int, cfg: ParseConfig) -> PR<SpecGpuRenderColorParams> {
    chain(sp_u8(d, p), |inherit: u8, p: int|
    chain(sp_enum_u8::<GpuColorParamType>(d, p, cfg, "GpuParticles.color_type"), |color_all_type: GpuColorParamType, p: int|
    chain(sp_enum_u8::<GpuColorSpaceType>(d, p, cfg, "GpuParticles.color_space"), |color_space: GpuColorSpaceType, p: int|
    chain(sp_gpu_color_data(d, p, cfg, color_all_type), |data: SpecGpuColorData, p: int|
    chain(sp_u32(d, p), |emissive: u32, p: int|
    chain(sp_u32(d, p), |fade_in: u32, p: int|
    chain(sp_u32(d, p), |fade_out: u32, p: int|
    Ok((SpecGpuRenderColorParams {
        color_inherit: BindType::spec_from_code(inherit as i32),
        color_all_type,
        color_space,
        data,
        emissive,
        fade_in,
        fade_out,
    }, p)))))))))
}

/// Four texture indexes.
pub open spec fn sp_quad_u32(d: Seq<u8>, p: int) -> PR<Quad<u32>> {
    chain(sp_u32(d, p), |v0: u32, p: int|
    chain(sp_u32(d, p), |v1: u32, p: int|
    chain(sp_u32(d, p), |v2: u32, p: int|
    chain(sp_u32(d, p), |v3: u32, p: int|
    Ok((Quad { v0, v1, v2, v3 }, p))))))
}

/// Four bytes.
pub open spec fn sp_quad_u8(d: Seq<u8>, p: int) -> PR<Quad<u8>> {
    chain(sp_u8(d, p), |v0: u8, p: int|
    chain(sp_u8(d, p), |v1: u8, p: int|
    chain(sp_u8(d, p), |v2: u8, p: int|
    chain(sp_u8(d, p), |v3: u8, p: int|
    Ok((Quad { v0, v1, v2, v3 }, p))))))
}

/// Filters of four filter codes.
pub open spec fn filters_of(q: Quad<u8>) -> Quad<TextureFilterType> {
    Quad {
        v0: TextureFilterType::spec_from_code(q.v0 as i32),
        v1: TextureFilterType::spec_from_code(q.v1 as i32),
        v2: TextureFilterType::spec_from_code(q.v2 as i32),
        v3: TextureFilterType::spec_from_code(q.v3 as i32),
    }
}

/// Wrap modes of four wrap codes.
pub open spec fn wraps_of(q: Quad<u8>) -> Quad<TextureWrapType> {
    Quad {
        v0: TextureWrapType::spec_from_code(q.v0 as i32),
        v1: TextureWrapType::spec_from_code(q.v1 as i32),
        v2: TextureWrapType::spec_from_code(q.v2 as i32),
        v3: TextureWrapType::spec_from_code(q.v3 as i32),
    }
}

/// Render material parameters: kind byte, four texture indexes, four filter
/// bytes, four wrap bytes.
pub open spec fn sp_gpu_render_material(d: Seq<u8>, p: int, cfg: ParseConfig) -> PR<GpuRenderMaterialParams> {
    chain(sp_enum_u8::<GpuMaterialType>(d, p, cfg, "GpuParticles.material"), |material: GpuMaterialType, p: int|
    chain(sp_quad_u32(d, p), |texture_indexes: Quad<u32>, p: int|
    chain(sp_quad_u8(d, p), |f: Quad<u8>, p: int|
    chain(sp_quad_u8(d, p), |w: Quad<u8>, p: int|
    Ok((GpuRenderMaterialParams {
        material,
        texture_indexes,
        texture_filters: filters_of(f),
        texture_wraps: wraps_of(w),
    }, p))))))
}

/// The GPU particle settings.
pub open spec fn sp_gpu_particles_data(d: Seq<u8>, p: int, cfg: ParseConfig) -> PR<SpecGpuParticlesParameter> {
    chain(sp_gpu_basic(d, p), |basic: GpuBasicParams, p: int|
    chain(sp_gpu_emit_shape(d, p, cfg), |emit_shape: GpuEmitShapeParams, p: int|
    chain(sp_gpu_velocity(d, p), |velocity: GpuVelocityParams, p: int|
    chain(sp_gpu_rotation(d, p), |rotation: GpuRotationParams, p: int|
    chain(sp_gpu_scale(d, p, cfg), |scale: GpuScaleParams, p: int|
    chain(sp_gpu_force(d, p), |force: GpuForceParams, p: int|
    chain(sp_gpu_render_basic(d, p), |render_basic: GpuRenderBasicParams, p: int|
    chain(sp_gpu_render_shape(d, p, cfg), |render_shape: GpuRenderShapeParams, p: int|
    chain(sp_gpu_render_color(d, p, cfg), |render_color: SpecGpuRenderColorParams, p: int|
    chain(sp_gpu_render_material(d, p, cfg), |render_material: GpuRenderMaterialParams, p: int|
    Ok((SpecGpuParticlesParameter {
        basic,
        emit_shape,
        velocity,
        rotation,
        scale,
        force,
        render_basic,
        render_shape,
        render_color,
        render_material,
    }, p))))))))))))
}

/// GPU particles of a node: from version 1800 an enabled flag, then the settings.
pub open spec fn sp_gpu_particles(d: Seq<u8>, p: int, version: i32, cfg: ParseConfig) -> PR<Option<SpecGpuParticlesParameter>> {
    if version < 1800 {
        Ok((None, p))
    } else {
        chain(sp_i32(d, p), |enabled: i32, p: int|
        if enabled == 0 {
            Ok((None, p))
        } else {
            chain(sp_gpu_particles_data(d, p, cfg), |g: SpecGpuParticlesParameter, p: int| Ok((Some(g), p)))
        })
    }
}

fn read_gpu_basic(reader: &mut BinaryReader) -> (res: Result<GpuBasicParams, Error>)
    ensures
        final(reader).data() == old(reader).data(),
        final(reader).pos() >= old(reader).pos(),
        pr(res, final(reader).pos()) == sp_gpu_basic(old(reader).data(), old(reader).pos()),
{
    let emit_count = reader.read_i32()?;
    let emit_per_frame = reader.read_i32()?;
    let emit_offset = reader.read_f32()?;
    let life_time = reader.read_vector2d()?;
    Ok(GpuBasicParams { emit_count, emit_per_frame, emit_offset, life_time })
}

fn read_gpu_emit_data(reader: &mut BinaryReader, t: GpuEmitShape) -> (res: Result<GpuEmitShapeData, Error>)
    ensures
        final(reader).data() == old(reader).data(),
        final(reader).pos() >= old(reader).pos(),
        pr(res, final(reader).pos()) == sp_gpu_emit_data(old(reader).data(), old(reader).pos(), t),
{
    match t {
        GpuEmitShape::Line => {
            let start = reader.read_vector3d()?;
            let end = reader.read_vector3d()?;
            let width = reader.read_f32()?;
            Ok(GpuEmitShapeData::Line { start, end, width })
        },
        GpuEmitShape::Circle => {
            let axis = reader.read_vector3d()?;
            let inner = reader.read_f32()?;
            let outer = reader.read_f32()?;
            Ok(GpuEmitShapeData::Circle { axis, inner, outer })
        },
        GpuEmitShape::Sphere => {
            let radius = reader.read_f32()?;
            Ok(GpuEmitShapeData::Sphere { radius })
        },
        GpuEmitShape::Model => {
            let index = reader.read_i32()?;
            let size = reader.read_f32()?;
            Ok(GpuEmitShapeData::Model { index, size })
        },
        _ => Ok(GpuEmitShapeData::Point),
    }
}

fn parse_emit_shape(reader: &mut BinaryReader, config: &ParseConfig) -> (res: Result<GpuEmitShapeParams, Error>)
    ensures
        final(reader).data() == old(reader).data(),
        final(reader).pos() >= old(reader).pos(),
        pr(res, final(reader).pos()) == sp_gpu_emit_shape(old(reader).data(), old(reader).pos(), *config),
{
    let shape_type: GpuEmitShape = reader.read_enum_u8(config, "GpuParticles.emit_shape")?;
    let r = reader.read_u8()?;
    let data = read_gpu_emit_data(reader, shape_type)?;
    Ok(GpuEmitShapeParams { shape_type, rotation_applied: r != 0, data })
}

fn read_gpu_velocity(reader: &mut BinaryReader) -> (res: Result<GpuVelocityParams, Error>)
    ensures
        final(reader).data() == old(reader).data(),
        final(reader).pos() >= old(reader).pos(),
        pr(res, final(reader).pos()) == sp_gpu_velocity(old(reader).data(), old(reader).pos()),
{
    let direction = reader.read_vector3d()?;
    let spread = reader.read_f32()?;
    let initial_speed = reader.read_vector2d()?;
    let damping = reader.read_vector2d()?;
    Ok(GpuVelocityParams { direction, spread, initial_speed, damping })
}

fn read_vector3d_pair(reader: &mut BinaryReader) -> (res: Result<Vector3DPair, Error>)
    ensures
        final(reader).data() == old(reader).data(),
        final(reader).pos() >= old(reader).pos(),
        pr(res, final(reader).pos()) == sp_vector3d_pair(old(reader).data(), old(reader).pos()),
{
    let first = reader.read_vector3d()?;
    let second = reader.read_vector3d()?;
    Ok(Vector3DPair { first, second })
}

fn read_gpu_rotation(reader: &mut BinaryReader) -> (res: Result<GpuRotationParams, Error>)
    ensures
        final(reader).data() == old(reader).data(),
        final(reader).pos() >= old(reader).pos(),
        pr(res, final(reader).pos()) == sp_gpu_rotation(old(reader).data(), old(reader).pos()),
{
    let offset = read_vector3d_pair(reader)?;
    let velocity = read_vector3d_pair(reader)?;
    Ok(GpuRotationParams { offset, velocity })
}

fn read_scale4(reader: &mut BinaryReader) -> (res: Result<GpuScale4, Error>)
    ensures
        final(reader).data() == old(reader).data(),
        final(reader).pos() >= old(reader).pos(),
        pr(res, final(reader).pos()) == sp_gpu_scale4(old(reader).data(), old(reader).pos()),
{
    let uniform_min = reader.read_f32()?;
    let uniform_max = reader.read_f32()?;
    let axis_min = reader.read_vector3d()?;
    let axis_max = reader.read_vector3d()?;
    Ok(GpuScale4 { uniform_min, uniform_max, axis_min, axis_max })
}

fn parse_scale(reader: &mut BinaryReader, config: &ParseConfig) -> (res: Result<GpuScaleParams, Error>)
    ensures
        final(reader).data() == old(reader).data(),
        final(reader).pos() >= old(reader).pos(),
        pr(res, final(reader).pos()) == sp_gpu_scale(old(reader).data(), old(reader).pos(), *config),
{
    let scale_type: GpuScaleType = reader.read_enum_u8(config, "GpuParticles.scale_type")?;
    match scale_type {
        GpuScaleType::Fixed => {
            let scale = read_scale4(reader)?;
            Ok(GpuScaleParams { scale_type, data: GpuScaleData::Fixed { scale } })
        },
        GpuScaleType::Easing => {
            let start = read_scale4(reader)?;
            let end = read_scale4(reader)?;
            let speed = reader.read_vector3d()?;
            Ok(GpuScaleParams { scale_type, data: GpuScaleData::Easing { start, end, speed } })
        },
        _ => Err(Error::InvalidEnumValue { field: "GpuParticles.scale_type", value: 1 }),
    }
}

fn read_gpu_vortex(reader: &mut BinaryReader) -> (res: Result<(u32, u32, Vector3D, Vector3D), Error>)
    ensures
        final(reader).data() == old(reader).data(),
        final(reader).pos() >= old(reader).pos(),
        pr(res, final(reader).pos()) == sp_gpu_vortex(old(reader).data(), old(reader).pos()),
{
    let rotation = reader.read_f32()?;
    let attraction = reader.read_f32()?;
    let center = reader.read_vector3d()?;
    let axis = reader.read_vector3d()?;
    Ok((rotation, attraction, center, axis))
}

fn read_gpu_turbulence(reader: &mut BinaryReader) -> (res: Result<(u32, i32, u32, i32), Error>)
    ensures
        final(reader).data() == old(reader).data(),
        final(reader).pos() >= old(reader).pos(),
        pr(res, final(reader).pos()) == sp_gpu_turbulence(old(reader).data(), old(reader).pos()),
{
    let power = reader.read_f32()?;
    let seed = reader.read_i32()?;
    let scale = reader.read_f32()?;
    let octave = reader.read_i32()?;
    Ok((power, seed, scale, octave))
}

fn read_gpu_force(reader: &mut BinaryReader) -> (res: Result<GpuForceParams, Error>)
    ensures
        final(reader).data() == old(reader).data(),
        final(reader).pos() >= old(reader).pos(),
        pr(res, final(reader).pos()) == sp_gpu_force(old(reader).data(), old(reader).pos()),
{
    let gravity = reader.read_vector3d()?;
    let v = read_gpu_vortex(reader)?;
    let t = read_gpu_turbulence(reader)?;
    Ok(GpuForceParams {
        gravity,
        vortex_rotation: v.0,
        vortex_attraction: v.1,
        vortex_center: v.2,
        vortex_axis: v.3,
        turbulence_power: t.0,
        turbulence_seed: t.1,
        turbulence_scale: t.2,
        turbulence_octave: t.3,
    })
}

fn read_gpu_render_basic(reader: &mut BinaryReader) -> (res: Result<GpuRenderBasicParams, Error>)
    ensures
        final(reader).data() == old(reader).data(),
        final(reader).pos() >= old(reader).pos(),
        pr(res, final(reader).pos()) == sp_gpu_render_basic(old(reader).data(), old(reader).pos()),
{
    let blend = reader.read_u8()?;
    let zw = reader.read_u8()?;
    let zt = reader.read_u8()?;
    Ok(GpuRenderBasicParams { blend_type: AlphaBlendType::from_code(blend as i32), z_write: zw != 0, z_test: zt != 0 })
}

fn read_gpu_render_shape(reader: &mut BinaryReader, config: &ParseConfig) -> (res: Result<GpuRenderShapeParams, Error>)
    ensures
        final(reader).data() == old(reader).data(),
        final(reader).pos() >= old(reader).pos(),
        pr(res, final(reader).pos()) == sp_gpu_render_shape(old(reader).data(), old(reader).pos(), *config),
{
    let shape_type: GpuRenderShape = reader.read_enum_u8(config, "GpuParticles.render_shape")?;
    let data = reader.read_u32()?;
    let size = reader.read_f32()?;
    Ok(GpuRenderShapeParams { shape_type, data, size })
}

fn read_color_range(reader: &mut BinaryReader) -> (res: Result<ColorRange, Error>)
    ensures
        final(reader).data() == old(reader).data(),
        final(reader).pos() >= old(reader).pos(),
        pr(res, final(reader).pos()) == sp_color_range(old(reader).data(), old(reader).pos()),
{
    let min = reader.read_color()?;
    let max = reader.read_color()?;
    Ok(ColorRange { min, max })
}

fn read_gpu_color_data(reader: &mut BinaryReader, version: i32, config: &ParseConfig, t: GpuColorParamType) -> (res: Result<GpuColorData, Error>)
    ensures
        final(reader).data() == old(reader).data(),
        final(reader).pos() >= old(reader).pos(),
        prv(res, final(reader).pos()) == sp_gpu_color_data(old(reader).data(), old(reader).pos(), *config, t),
{
    match t {
        GpuColorParamType::Fixed => {
            let c = reader.read_color()?;
            Ok(GpuColorData::Fixed(c))
        },
        GpuColorParamType::Random => {
            let r = read_color_range(reader)?;
            Ok(GpuColorData::Random(r.min, r.max))
        },
        GpuColorParamType::Easing => {
            let start = read_color_range(reader)?;
            let end = read_color_range(reader)?;
            let speed = reader.read_vector3d()?;
            Ok(GpuColorData::Easing { start, end, speed })
        },
        GpuColorParamType::FCurve => {
            let f = parse_fcurve_vector_color(reader, version, config)?;
            Ok(GpuColorData::FCurve(Box::new(f)))
        },
        GpuColorParamType::Gradient => {
            let g = parse_gradient(reader)?;
            Ok(GpuColorData::Gradient(g))
        },
        GpuColorParamType::Unknown(_) => Ok(GpuColorData::Fixed(Color { r: 255, g: 255, b: 255, a: 255 })),
    }
}

fn parse_render_color(reader: &mut BinaryReader, version: i32, config: &ParseConfig) -> (res: Result<GpuRenderColorParams, Error>)
    ensures
        final(reader).data() == old(reader).data(),
        final(reader).pos() >= old(reader).pos(),
        prv(res, final(reader).pos()) == sp_gpu_render_color(old(reader).data(), old(reader).pos(), *config),
{
    let inherit = reader.read_u8()?;
    let color_all_type: GpuColorParamType = reader.read_enum_u8(config, "GpuParticles.color_type")?;
    let color_space: GpuColorSpaceType = reader.read_enum_u8(config, "GpuParticles.color_space")?;
    let data = read_gpu_color_data(reader, version, config, color_all_type)?;
    let emissive = reader.read_f32()?;
    let fade_in = reader.read_f32()?;
    let fade_out = reader.read_f32()?;
    Ok(GpuRenderColorParams {
        color_inherit: BindType::from_code(inherit as i32),
        color_all_type,
        color_space,
        data,
        emissive,
        fade_in,
        fade_out,
    })
}

fn read_quad_u32(reader: &mut BinaryReader) -> (res: Result<Quad<u32>, Error>)
    ensures
        final(reader).data() == old(reader).data(),
        final(reader).pos() >= old(reader).pos(),
        pr(res, final(reader).pos()) == sp_quad_u32(old(reader).data(), old(reader).pos()),
{
    let v0 = reader.read_u32()?;
    let v1 = reader.read_u32()?;
    let v2 = reader.read_u32()?;
    let v3 = reader.read_u32()?;
    Ok(Quad { v0, v1, v2, v3 })
}

fn read_quad_u8(reader: &mut BinaryReader) -> (res: Result<Quad<u8>, Error>)
    ensures
        final(reader).data() == old(reader).data(),
        final(reader).pos() >= old(reader).pos(),
        pr(res, final(reader).pos()) == sp_quad_u8(old(reader).data(), old(reader).pos()),
{
    let v0 = reader.read_u8()?;
    let v1 = reader.read_u8()?;
    let v2 = reader.read_u8()?;
    let v3 = reader.read_u8()?;
    Ok(Quad { v0, v1, v2, v3 })
}

fn parse_render_material(reader: &mut BinaryReader, config: &ParseConfig) -> (res: Result<GpuRenderMaterialParams, Error>)
    ensures
        final(reader).data() == old(reader).data(),
        final(reader).pos() >= old(reader).pos(),
        pr(res, final(reader).pos()) == sp_gpu_render_material(old(reader).data(), old(reader).pos(), *config),
{
    let material: GpuMaterialType = reader.read_enum_u8(config, "GpuParticles.material")?;
    let texture_indexes = read_quad_u32(reader)?;
    let f = read_quad_u8(reader)?;
    let w = read_quad_u8(reader)?;
    Ok(GpuRenderMaterialParams {
        material,
        texture_indexes,
        texture_filters: Quad {
            v0: TextureFilterType::from_code(f.v0 as i32),
            v1: TextureFilterType::from_code(f.v1 as i32),
            v2: TextureFilterType::from_code(f.v2 as i32),
            v3: TextureFilterType::from_code(f.v3 as i32),
        },
        texture_wraps: Quad {
            v0: TextureWrapType::from_code(w.v0 as i32),
            v1: TextureWrapType::from_code(w.v1 as i32),
            v2: TextureWrapType::from_code(w.v2 as i32),
            v3: TextureWrapType::from_code(w.v3 as i32),
        },
    })
}

fn parse_gpu_particles_data(reader: &mut BinaryReader, version: i32, config: &ParseConfig) -> (res: Result<GpuParticlesParameter, Error>)
    ensures
        final(reader).data() == old(reader).data(),
        final(reader).pos() >= old(reader).pos(),
        prv(res, final(reader).pos()) == sp_gpu_particles_data(old(reader).data(), old(reader).pos(), *config),
{
    let basic = read_gpu_basic(reader)?;
    let emit_shape = parse_emit_shape(reader, config)?;
    let velocity = read_gpu_velocity(reader)?;
    let rotation = read_gpu_rotation(reader)?;
    let scale = parse_scale(reader, config)?;
    let force = read_gpu_force(reader)?;
    let render_basic = read_gpu_render_basic(reader)?;
    let render_shape = read_gpu_render_shape(reader, config)?;
    let render_color = parse_render_color(reader, version, config)?;
    let render_material = parse_render_material(reader, config)?;
    Ok(GpuParticlesParameter {
        basic,
        emit_shape,
        velocity,
        rotation,
        scale,
        force,
        render_basic,
        render_shape,
        render_color,
        render_material,
    })
}

/// Parse the GPU particle settings of a node.
pub fn parse_gpu_particles(reader: &mut BinaryReader, version: i32, config: &ParseConfig) -> (res: Result<Option<GpuParticlesParameter>, Error>)
    ensures
        final(reader).data() == old(reader).data(),
        final(reader).pos() >= old(reader).pos(),
        match (res, sp_gpu_particles(old(reader).data(), old(reader).pos(), version, *config)) {
            (Ok(Some(v)), Ok((Some(w), q))) => v@ == w && q == final(reader).pos(),
            (Ok(None), Ok((None, q))) => q == final(reader).pos(),
            (Err(e), Err(f)) => e == f,
            _ => false,
        },
{
    if version < 1800 {
        return Ok(None);
    }
    let enabled = reader.read_i32()?;
    if enabled == 0 {
        return Ok(None);
    }
    let params = parse_gpu_particles_data(reader, version, config)?;
    Ok(Some(params))
}

} // verus!
