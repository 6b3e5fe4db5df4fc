//! Procedural model parameter parser.

use vstd::prelude::*;

use crate::config::ParseConfig;
use crate::error::Error;
use crate::reader::{chain, pr, sp_color, sp_enum, sp_i32, sp_u32, sp_vector2d, sp_vector3d, BinaryReader, PR};
use crate::types::enums::{
    ProceduralModelAxisType, ProceduralModelCrossSectionType, ProceduralModelPrimitiveType,
    ProceduralModelType,
};
use crate::types::primitives::{Color, Vector2D, Vector3D};
use crate::types::procedural_model::{
    ColorGrid, MeshParams, NoiseParams2, NoiseParams3, PrimitiveParams, ProceduralModelNoise,
    ProceduralModelParameter, ProceduralRibbonParams,
};
use crate::version::VERSION_16_ALPHA9;

verus! {

/// An `f32` present from version 1.6 alpha 9.
pub open spec fn sp_opt_f32(d: Seq<u8>, p: int, version: i32) -> PR<Option<u32>> {
    if version >= VERSION_16_ALPHA9 {
        chain(sp_u32(d, p), |v: u32, p: int| Ok((Some(v), p)))
    } else {
        Ok((None, p))
    }
}

/// Mesh parameters (for mesh models).
pub open spec fn sp_mesh_params(d: Seq<u8>, p: int, version: i32) -> PR<MeshParams> {
    chain(sp_u32(d, p), |angle_begin: u32, p: int|
    chain(sp_u32(d, p), |angle_end: u32, p: int|
    chain(sp_i32(d, p), |divisions_axial: i32, p: int|
    chain(sp_i32(d, p), |divisions_radial: i32, p: int|
    chain(sp_opt_f32(d, p, version), |rotate: Option<u32>, p: int|
    Ok((MeshParams { angle_begin, angle_end, divisions_axial, divisions_radial, rotate }, p)))))))
}

/// Ribbon parameters (for ribbon models).
pub open spec fn sp_ribbon_params(d: Seq<u8>, p: int, version: i32, cfg: ParseConfig) -> PR<ProceduralRibbonParams> {
    chain(sp_enum::<ProceduralModelCrossSectionType>(d, p, cfg, "ProceduralModel.cross_section"), |cross_section: ProceduralModelCrossSectionType, p: int|
    chain(sp_opt_f32(d, p, version), |rotate: Option<u32>, p: int|
    chain(sp_i32(d, p), |vertices: i32, p: int|
    chain(sp_vector2d(d, p), |ribbon_sizes: Vector2D, p: int|
    chain(sp_vector2d(d, p), |ribbon_angles: Vector2D, p: int|
    chain(sp_vector2d(d, p), |ribbon_noises: Vector2D, p: int|
    chain(sp_i32(d, p), |count: i32, p: int|
    Ok((ProceduralRibbonParams { cross_section, rotate, vertices, ribbon_sizes, ribbon_angles, ribbon_noises, count }, p)))))))))
}

/// Primitive parameters of a kind. An unknown kind reads nothing and stands
/// for a zero sphere.
pub open spec fn sp_primitive_params(d: Seq<u8>, p: int, t: ProceduralModelPrimitiveType) -> PR<PrimitiveParams> {
    match t {
        ProceduralModelPrimitiveType::Sphere =>
            chain(sp_u32(d, p), |radius: u32, p: int|
            chain(sp_u32(d, p), |depth_min: u32, p: int|
            chain(sp_u32(d, p), |depth_max: u32, p: int|
            Ok((PrimitiveParams::Sphere { radius, depth_min, depth_max }, p))))),
        ProceduralModelPrimitiveType::Cone =>
            chain(sp_u32(d, p), |radius: u32, p: int|
            chain(sp_u32(d, p), |depth: u32, p: int|
            Ok((PrimitiveParams::Cone { radius, depth }, p)))),
        ProceduralModelPrimitiveType::Cylinder =>
            chain(sp_u32(d, p), |radius1: u32, p: int|
            chain(sp_u32(d, p), |radius2: u32, p: int|
            chain(sp_u32(d, p), |depth: u32, p: int|
            Ok((PrimitiveParams::Cylinder { radius1, radius2, depth }, p))))),
        ProceduralModelPrimitiveType::Spline4 =>
            chain(sp_vector2d(d, p), |point1: Vector2D, p: int|
            chain(sp_vector2d(d, p), |point2: Vector2D, p: int|
            chain(sp_vector2d(d, p), |point3: Vector2D, p: int|
            chain(sp_vector2d(d, p), |point4: Vector2D, p: int|
            Ok((PrimitiveParams::Spline4 { point1, point2, point3, point4 }, p)))))),
        ProceduralModelPrimitiveType::Unknown(_) => Ok((PrimitiveParams::Sphere { radius: 0, depth_min: 0, depth_max: 0 }, p)),
    }
}

/// Two-dimensional noise.
pub open spec fn sp_noise2(d: Seq<u8>, p: int) -> PR<NoiseParams2> {
    chain(sp_vector2d(d, p), |frequency: Vector2D, p: int|
    chain(sp_vector2d(d, p), |offset: Vector2D, p: int|
    chain(sp_vector2d(d, p), |power: Vector2D, p: int|
    Ok((NoiseParams2 { frequency, offset, power }, p)))))
}

/// Three-dimensional noise.
pub open spec fn sp_noise3(d: Seq<u8>, p: int) -> PR<NoiseParams3> {
    chain(sp_vector3d(d, p), |frequency: Vector3D, p: int|
    chain(sp_vector3d(d, p), |offset: Vector3D, p: int|
    chain(sp_vector3d(d, p), |power: Vector3D, p: int|
    Ok((NoiseParams3 { frequency, offset, power }, p)))))
}

/// The noise of a procedural model; vertex color noise from version 1.6 alpha 9.
pub open spec fn sp_pm_noise(d: Seq<u8>, p: int, version: i32) -> PR<ProceduralModelNoise> {
    chain(sp_noise2(d, p), |tilt: NoiseParams2, p: int|
    chain(sp_noise3(d, p), |wave: NoiseParams3, p: int|
    chain(sp_noise3(d, p), |curl: NoiseParams3, p: int|
    chain(
        if version >= VERSION_16_ALPHA9 {
            chain(sp_noise3(d, p), |n: NoiseParams3, p: int| Ok((Some(n), p)))
        } else {
            Ok((None, p))
        },
        |vertex_color: Option<NoiseParams3>, p: int|
    Ok((ProceduralModelNoise { tilt, wave, curl, vertex_color }, p))))))
}

/// Three colors.
pub open spec fn sp_color3(d: Seq<u8>, p: int) -> PR<(Color, Color, Color)> {
    chain(sp_color(d, p), |a: Color, p: int|
    chain(sp_color(d, p), |b: Color, p: int|
    chain(sp_color(d, p), |c: Color, p: int|
    Ok(((a, b, c), p)))))
}

/// Opaque white.
pub open spec fn spec_white() -> Color {
    Color { r: 255, g: 255, b: 255, a: 255 }
}

/// The vertex color grid: six colors, then three more from version 1.6
/// alpha 9 (white before).
pub open spec fn sp_color_grid(d: Seq<u8>, p: int, version: i32) -> PR<ColorGrid> {
    chain(sp_color3(d, p), |a: (Color, Color, Color), p: int|
    chain(sp_color3(d, p), |b: (Color, Color, Color), p: int|
    chain(
        if version >= VERSION_16_ALPHA9 { sp_color3(d, p) } else { Ok(((spec_white(), spec_white(), spec_white()), p)) },
        |c: (Color, Color, Color), p: int|
    Ok((ColorGrid { c0: a.0, c1: a.1, c2: a.2, c3: b.0, c4: b.1, c5: b.2, c6: c.0, c7: c.1, c8: c.2 }, p)))))
}

/// Two optional pairs of 2D vectors, present from version 1.6 alpha 9.
pub open spec fn sp_opt_pairs(d: Seq<u8>, p: int, version: i32) -> PR<(Option<Vector2D>, Option<Vector2D>)> {
    if version >= VERSION_16_ALPHA9 {
        chain(sp_vector2d(d, p), |a: Vector2D, p: int|
        chain(sp_vector2d(d, p), |b: Vector2D, p: int|
        Ok(((Some(a), Some(b)), p))))
    } else {
        Ok(((None, None), p))
    }
}

/// The kinds of a procedural model: model, primitive, axis.
pub open spec fn sp_pm_kinds(d: Seq<u8>, p: int, cfg: ParseConfig) -> PR<(ProceduralModelType, ProceduralModelPrimitiveType, ProceduralModelAxisType)> {
    chain(sp_enum::<ProceduralModelType>(d, p, cfg, "ProceduralModel.model_type"), |m: ProceduralModelType, p: int|
    chain(sp_enum::<ProceduralModelPrimitiveType>(d, p, cfg, "ProceduralModel.primitive_type"), |t: ProceduralModelPrimitiveType, p: int|
    chain(sp_enum::<ProceduralModelAxisType>(d, p, cfg, "ProceduralModel.axis_type"), |a: ProceduralModelAxisType, p: int|
    Ok(((m, t, a), p)))))
}

/// A procedural model.
#[verifier::opaque]
pub open spec fn sp_procedural_model(d: Seq<u8>, p: int, version: i32, cfg: ParseConfig) -> PR<ProceduralModelParameter> {
    chain(sp_pm_kinds(d, p, cfg), |k: (ProceduralModelType, ProceduralModelPrimitiveType, ProceduralModelAxisType), p: int|
    chain(
        if k.0 == ProceduralModelType::Mesh {
            chain(sp_mesh_params(d, p, version), |m: MeshParams, p: int| Ok((Some(m), p)))
        } else {
            Ok((None, p))
        },
        |mesh_params: Option<MeshParams>, p: int|
    chain(
        if k.0 == ProceduralModelType::Ribbon {
            chain(sp_ribbon_params(d, p, version, cfg), |r: ProceduralRibbonParams, p: int| Ok((Some(r), p)))
        } else {
            Ok((None, p))
        },
        |ribbon_params: Option<ProceduralRibbonParams>, p: int|
    chain(sp_primitive_params(d, p, k.1), |primitive_params: PrimitiveParams, p: int|
    chain(sp_pm_noise(d, p, version), |noise: ProceduralModelNoise, p: int|
    chain(sp_color_grid(d, p, version), |vertex_colors: ColorGrid, p: int|
    chain(sp_opt_pairs(d, p, version), |cc: (Option<Vector2D>, Option<Vector2D>), p: int|
    chain(sp_opt_pairs(d, p, version), |uv: (Option<Vector2D>, Option<Vector2D>), p: int|
    Ok((ProceduralModelParameter {
        model_type: k.0,
        primitive_type: k.1,
        axis_type: k.2,
        mesh_params,
        ribbon_params,
        primitive_params,
        noise,
        vertex_colors,
        color_center_position: cc.0,
        color_center_area: cc.1,
        uv_position: uv.0,
        uv_size: uv.1,
    }, p))))))))))
}

fn read_opt_f32(reader: &mut BinaryReader, version: i32) -> (res: Result<Option<u32>, Error>)
    ensures
        final(reader).data() == old(reader).data(),
        final(reader).pos() >= old(reader).pos(),
        pr(res, final(reader).pos()) == sp_opt_f32(old(reader).data(), old(reader).pos(), version),
{
    if version >= VERSION_16_ALPHA9 {
        let v = reader.read_f32()?;
        Ok(Some(v))
    } else {
        Ok(None)
    }
}

fn read_mesh_params(reader: &mut BinaryReader, version: i32) -> (res: Result<MeshParams, Error>)
    ensures
        final(reader).data() == old(reader).data(),
        final(reader).pos() >= old(reader).pos(),
        pr(res, final(reader).pos()) == sp_mesh_params(old(reader).data(), old(reader).pos(), version),
{
    let angle_begin = reader.read_f32()?;
    let angle_end = reader.read_f32()?;
    let divisions_axial = reader.read_i32()?;
    let divisions_radial = reader.read_i32()?;
    let rotate = read_opt_f32(reader, version)?;
    Ok(MeshParams { angle_begin, angle_end, divisions_axial, divisions_radial, rotate })
}

fn read_ribbon_params(reader: &mut BinaryReader, version: i32, config: &ParseConfig) -> (res: Result<ProceduralRibbonParams, Error>)
    ensures
        final(reader).data() == old(reader).data(),
        final(reader).pos() >= old(reader).pos(),
        pr(res, final(reader).pos()) == sp_ribbon_params(old(reader).data(), old(reader).pos(), version, *config),
{
    let cross_section: ProceduralModelCrossSectionType = reader.read_enum(config, "ProceduralModel.cross_section")?;
    let rotate = read_opt_f32(reader, version)?;
    let vertices = reader.read_i32()?;
    let ribbon_sizes = reader.read_vector2d()?;
    let ribbon_angles = reader.read_vector2d()?;
    let ribbon_noises = reader.read_vector2d()?;
    let count = reader.read_i32()?;
    Ok(ProceduralRibbonParams { cross_section, rotate, vertices, ribbon_sizes, ribbon_angles, ribbon_noises, count })
}

fn parse_primitive_params(reader: &mut BinaryReader, t: ProceduralModelPrimitiveType) -> (res: Result<PrimitiveParams, Error>)
    ensures
        final(reader).data() == old(reader).data(),
        final(reader).pos() >= old(reader).pos(),
        pr(res, final(reader).pos()) == sp_primitive_params(old(reader).data(), old(reader).pos(), t),
{
    match t {
        ProceduralModelPrimitiveType::Sphere => {
            let radius = reader.read_f32()?;
            let depth_min = reader.read_f32()?;
            let depth_max = reader.read_f32()?;
            Ok(PrimitiveParams::Sphere { radius, depth_min, depth_max })
        },
        ProceduralModelPrimitiveType::Cone => {
            let radius = reader.read_f32()?;
            let depth = reader.read_f32()?;
            Ok(PrimitiveParams::Cone { radius, depth })
        },
        ProceduralModelPrimitiveType::Cylinder => {
            let radius1 = reader.read_f32()?;
            let radius2 = reader.read_f32()?;
            let depth = reader.read_f32()?;
            Ok(PrimitiveParams::Cylinder { radius1, radius2, depth })
        },
        ProceduralModelPrimitiveType::Spline4 => {
            let point1 = reader.read_vector2d()?;
            let point2 = reader.read_vector2d()?;
            let point3 = reader.read_vector2d()?;
            let point4 = reader.read_vector2d()?;
            Ok(PrimitiveParams::Spline4 { point1, point2, point3, point4 })
        },
        ProceduralModelPrimitiveType::Unknown(_) => Ok(PrimitiveParams::Sphere { radius: 0, depth_min: 0, depth_max: 0 }),
    }
}

fn read_noise_params2(reader: &mut BinaryReader) -> (res: Result<NoiseParams2, Error>)
    ensures
        final(reader).data() == old(reader).data(),
        final(reader).pos() >= old(reader).pos(),
        pr(res, final(reader).pos()) == sp_noise2(old(reader).data(), old(reader).pos()),
{
    let frequency = reader.read_vector2d()?;
    let offset = reader.read_vector2d()?;
    let power = reader.read_vector2d()?;
    Ok(NoiseParams2 { frequency, offset, power })
}

fn read_noise_params3(reader: &mut BinaryReader) -> (res: Result<NoiseParams3, Error>)
    ensures
        final(reader).data() == old(reader).data(),
        final(reader).pos() >= old(reader).pos(),
        pr(res, final(reader).pos()) == sp_noise3(old(reader).data(), old(reader).pos()),
{
    let frequency = reader.read_vector3d()?;
    let offset = reader.read_vector3d()?;
    let power = reader.read_vector3d()?;
    Ok(NoiseParams3 { frequency, offset, power })
}

fn read_pm_noise(reader: &mut BinaryReader, version: i32) -> (res: Result<ProceduralModelNoise, Error>)
    ensures
        final(reader).data() == old(reader).data(),
        final(reader).pos() >= old(reader).pos(),
        pr(res, final(reader).pos()) == sp_pm_noise(old(reader).data(), old(reader).pos(), version),
{
    let tilt = read_noise_params2(reader)?;
    let wave = read_noise_params3(reader)?;
    let curl = read_noise_params3(reader)?;
    let vertex_color = if version >= VERSION_16_ALPHA9 {
        Some(read_noise_params3(reader)?)
    } else {
        None
    };
    Ok(ProceduralModelNoise { tilt, wave, curl, vertex_color })
}

fn read_color3(reader: &mut BinaryReader) -> (res: Result<(Color, Color, Color), Error>)
    ensures
        final(reader).data() == old(reader).data(),
        final(reader).pos() >= old(reader).pos(),
        pr(res, final(reader).pos()) == sp_color3(old(reader).data(), old(reader).pos()),
{
    let a = reader.read_color()?;
    let b = reader.read_color()?;
    let c = reader.read_color()?;
    Ok((a, b, c))
}

fn read_color_grid(reader: &mut BinaryReader, version: i32) -> (res: Result<ColorGrid, Error>)
    ensures
        final(reader).data() == old(reader).data(),
        final(reader).pos() >= old(reader).pos(),
        pr(res, final(reader).pos()) == sp_color_grid(old(reader).data(), old(reader).pos(), version),
{
    let a = read_color3(reader)?;
    let b = read_color3(reader)?;
    let c = if version >= VERSION_16_ALPHA9 {
        read_color3(reader)?
    } else {
        let white = Color { r: 255, g: 255, b: 255, a: 255 };
        (white, white, white)
    };
    Ok(ColorGrid { c0: a.0, c1: a.1, c2: a.2, c3: b.0, c4: b.1, c5: b.2, c6: c.0, c7: c.1, c8: c.2 })
}

fn read_opt_pairs(reader: &mut BinaryReader, version: i32) -> (res: Result<(Option<Vector2D>, Option<Vector2D>), Error>)
    ensures
        final(reader).data() == old(reader).data(),
        final(reader).pos() >= old(reader).pos(),
        pr(res, final(reader).pos()) == sp_opt_pairs(old(reader).data(), old(reader).pos(), version),
{
    if version >= VERSION_16_ALPHA9 {
        let a = reader.read_vector2d()?;
        let b = reader.read_vector2d()?;
        Ok((Some(a), Some(b)))
    } else {
        Ok((None, None))
    }
}

fn read_pm_kinds(reader: &mut BinaryReader, config: &ParseConfig) -> (res: Result<(ProceduralModelType, ProceduralModelPrimitiveType, ProceduralModelAxisType), Error>)
    ensures
        final(reader).data() == old(reader).data(),
        final(reader).pos() >= old(reader).pos(),
        pr(res, final(reader).pos()) == sp_pm_kinds(old(reader).data(), old(reader).pos(), *config),
{
    let m: ProceduralModelType = reader.read_enum(config, "ProceduralModel.model_type")?;
    let t: ProceduralModelPrimitiveType = reader.read_enum(config, "ProceduralModel.primitive_type")?;
    let a: ProceduralModelAxisType = reader.read_enum(config, "ProceduralModel.axis_type")?;
    Ok((m, t, a))
}

/// Parse a procedural model.
pub fn parse_procedural_model(reader: &mut BinaryReader, version: i32, config: &ParseConfig) -> (res: Result<ProceduralModelParameter, Error>)
    ensures
        final(reader).data() == old(reader).data(),
        final(reader).pos() >= old(reader).pos(),
        pr(res, final(reader).pos()) == sp_procedural_model(old(reader).data(), old(reader).pos(), version, *config),
{
    proof {
        reveal(sp_procedural_model);
    }
    let k = read_pm_kinds(reader, config)?;
    let mesh_params = if k.0 == ProceduralModelType::Mesh {
        Some(read_mesh_params(reader, version)?)
    } else {
        None
    };
    let ribbon_params = if k.0 == ProceduralModelType::Ribbon {
        Some(read_ribbon_params(reader, version, config)?)
    } else {
        None
    };
    let primitive_params = parse_primitive_params(reader, k.1)?;
    let noise = read_pm_noise(reader, version)?;
    let vertex_colors = read_color_grid(reader, version)?;
    let cc = read_opt_pairs(reader, version)?;
    let uv = read_opt_pairs(reader, version)?;
    Ok(ProceduralModelParameter {
        model_type: k.0,
        primitive_type: k.1,
        axis_type: k.2,
        mesh_params,
        ribbon_params,
        primitive_params,
        noise,
        vertex_colors,
        color_center_position: cc.0,
        color_center_area: cc.1,
        uv_position: uv.0,
        uv_size: uv.1,
    })
}

} // verus!
