//! Renderer common parameters (material, blending, textures, fades, UVs, custom data).

use vstd::prelude::*;

use crate::config::ParseConfig;
use crate::error::Error;
use crate::reader::{
    chain, lemma_repeat_err, pr, prv, sp_bool, sp_easing_vector2d, sp_enum, sp_i32,
    sp_random_vector2d, sp_repeat, sp_u32, sp_vector2d, BinaryReader, IsUnknown, PR,
};
use crate::types::custom_data::{ParameterCustomData, SpecParameterCustomData};
use crate::types::enums::{
    AlphaBlendType, BindType, FadeInType, FadeOutType, ParameterCustomDataType,
    RendererMaterialType, TextureFilterType, TextureWrapType,
};
use crate::types::fcurve::{SpecFCurveVector2D, SpecFCurveVectorColor};
use crate::types::gradient::{Gradient, SpecGradient};
use crate::types::primitives::{EasingFloatWithoutRandom, EasingVector2D, RandomVector2D, Vector2D, Vector4D};
use crate::types::renderer_common::{
    FadeParam, MaterialFileData, MaterialTextureParam, ParameterRendererCommon,
    SpecMaterialFileData, SpecParameterRendererCommon,
};
use crate::types::uv::{SpecUVParameter, UVParameter};

use super::fcurve::{parse_fcurve_vector2d, parse_fcurve_vector_color, sp_fcurve_vector2d, sp_fcurve_vector_color};
use super::gradient::{parse_gradient, sp_gradient};
use super::uv::{parse_uv, sp_uv};

verus! {

// ---------------------------------------------------------------- custom data

/// Four `f32` values.
pub open spec fn sp_vector4d(d: Seq<u8>, p: int) -> PR<Vector4D> {
    chain(sp_u32(d, p), |x: u32, p: int|
    chain(sp_u32(d, p), |y: u32, p: int|
    chain(sp_u32(d, p), |z: u32, p: int|
    chain(sp_u32(d, p), |w: u32, p: int|
    Ok((Vector4D { x, y, z, w }, p))))))
}

/// A custom data parameter: the kind, then the kind's data. An unknown kind
/// (accepted under the lenient policy) reads nothing more and stands for no data.
pub open spec fn sp_custom_data(d: Seq<u8>, p: int, version: i32, cfg: ParseConfig) -> PR<SpecParameterCustomData> {
    chain(sp_enum::<ParameterCustomDataType>(d, p, cfg, "CustomData.type"), |t: ParameterCustomDataType, p: int|
    match t {
        ParameterCustomDataType::Fixed2D => chain(sp_vector2d(d, p), |v: Vector2D, p: int|
            Ok((SpecParameterCustomData::Fixed2D(v), p))),
        ParameterCustomDataType::Random2D => chain(sp_random_vector2d(d, p), |v: RandomVector2D, p: int|
            Ok((SpecParameterCustomData::Random2D(v), p))),
        ParameterCustomDataType::Easing2D => chain(sp_easing_vector2d(d, p), |v: EasingVector2D, p: int|
            Ok((SpecParameterCustomData::Easing2D(v), p))),
        ParameterCustomDataType::FCurve2D => chain(sp_fcurve_vector2d(d, p, cfg), |v: SpecFCurveVector2D, p: int|
            Ok((SpecParameterCustomData::FCurve2D(v), p))),
        ParameterCustomDataType::Fixed4D => chain(sp_vector4d(d, p), |v: Vector4D, p: int|
            Ok((SpecParameterCustomData::Fixed4D(v), p))),
        ParameterCustomDataType::FCurveColor => chain(sp_fcurve_vector_color(d, p, cfg), |v: SpecFCurveVectorColor, p: int|
            Ok((SpecParameterCustomData::FCurveColor(v), p))),
        ParameterCustomDataType::DynamicInput => Ok((SpecParameterCustomData::DynamicInput, p)),
        _ => Ok((SpecParameterCustomData::NoData, p)),
    })
}

fn read_vector4d(reader: &mut BinaryReader) -> (res: Result<Vector4D, Error>)
    ensures
        final(reader).data() == old(reader).data(),
        final(reader).pos() >= old(reader).pos(),
        pr(res, final(reader).pos()) == sp_vector4d(old(reader).data(), old(reader).pos()),
{
    let x = reader.read_f32()?;
    let y = reader.read_f32()?;
    let z = reader.read_f32()?;
    let w = reader.read_f32()?;
    Ok(Vector4D { x, y, z, w })
}

/// Parse a custom data parameter.
pub fn parse_custom_data(reader: &mut BinaryReader, version: i32, config: &ParseConfig) -> (res: Result<ParameterCustomData, Error>)
    ensures
        final(reader).data() == old(reader).data(),
        final(reader).pos() >= old(reader).pos(),
        prv(res, final(reader).pos()) == sp_custom_data(old(reader).data(), old(reader).pos(), version, *config),
{
    let type_: ParameterCustomDataType = reader.read_enum(config, "CustomData.type")?;
    match type_ {
        ParameterCustomDataType::Fixed2D => {
            let v = reader.read_vector2d()?;
            Ok(ParameterCustomData::Fixed2D(v))
        },
        ParameterCustomDataType::Random2D => {
            let v = reader.read_random_vector2d()?;
            Ok(ParameterCustomData::Random2D(v))
        },
        ParameterCustomDataType::Easing2D => {
            let v = reader.read_easing_vector2d()?;
            Ok(ParameterCustomData::Easing2D(v))
        },
        ParameterCustomDataType::FCurve2D => {
            let v = parse_fcurve_vector2d(reader, version, config)?;
            Ok(ParameterCustomData::FCurve2D(Box::new(v)))
        },
        ParameterCustomDataType::Fixed4D => {
            let v = read_vector4d(reader)?;
            Ok(ParameterCustomData::Fixed4D(v))
        },
        ParameterCustomDataType::FCurveColor => {
            let v = parse_fcurve_vector_color(reader, version, config)?;
            Ok(ParameterCustomData::FCurveColor(Box::new(v)))
        },
        ParameterCustomDataType::DynamicInput => Ok(ParameterCustomData::DynamicInput),
        _ => Ok(ParameterCustomData::NoData),
    }
}

// ---------------------------------------------------------------- material data

/// A material texture slot: texture type and index.
pub open spec fn sp_texture_param(d: Seq<u8>, p: int) -> PR<MaterialTextureParam> {
    chain(sp_i32(d, p), |texture_type: i32, p: int|
    chain(sp_i32(d, p), |index: i32, p: int|
    Ok((MaterialTextureParam { texture_type, index }, p))))
}

/// Reading one texture slot, as an item of a repetition.
pub open spec fn texture_param_item(d: Seq<u8>) -> spec_fn(int) -> PR<MaterialTextureParam> {
    |p: int| sp_texture_param(d, p)
}

/// Reading one uniform, as an item of a repetition.
pub open spec fn vector4d_item(d: Seq<u8>) -> spec_fn(int) -> PR<Vector4D> {
    |p: int| sp_vector4d(d, p)
}

/// Reading one gradient, as an item of a repetition.
pub open spec fn gradient_item(d: Seq<u8>) -> spec_fn(int) -> PR<SpecGradient> {
    |p: int| sp_gradient(d, p)
}

/// The gradients of a material file (from version 1703): a count, then the gradients.
pub open spec fn sp_material_gradients(d: Seq<u8>, p: int, version: i32) -> PR<Seq<SpecGradient>> {
    if version >= 1703 {
        chain(sp_i32(d, p), |n: i32, p: int| sp_repeat(n as usize as nat, p, gradient_item(d)))
    } else {
        Ok((Seq::empty(), p))
    }
}

/// The data of a file material: material index, texture slots, uniforms, gradients.
pub open spec fn sp_material_file_data(d: Seq<u8>, p: int, version: i32) -> PR<SpecMaterialFileData> {
    chain(sp_i32(d, p), |material_index: i32, p: int|
    chain(sp_i32(d, p), |tc: i32, p: int|
    chain(sp_repeat(tc as usize as nat, p, texture_param_item(d)), |texture_indexes: Seq<MaterialTextureParam>, p: int|
    chain(sp_i32(d, p), |uc: i32, p: int|
    chain(sp_repeat(uc as usize as nat, p, vector4d_item(d)), |uniforms: Seq<Vector4D>, p: int|
    chain(sp_material_gradients(d, p, version), |gradients: Seq<SpecGradient>, p: int|
    Ok((SpecMaterialFileData { material_index, texture_indexes, uniforms, gradients }, p))))))))
}

fn read_texture_param(reader: &mut BinaryReader) -> (res: Result<MaterialTextureParam, Error>)
    ensures
        final(reader).data() == old(reader).data(),
        final(reader).pos() >= old(reader).pos(),
        pr(res, final(reader).pos()) == sp_texture_param(old(reader).data(), old(reader).pos()),
{
    let texture_type = reader.read_i32()?;
    let index = reader.read_i32()?;
    Ok(MaterialTextureParam { texture_type, index })
}

#[verifier::loop_isolation(false)]
fn read_texture_params(reader: &mut BinaryReader, count: usize) -> (res: Result<Vec<MaterialTextureParam>, Error>)
    ensures
        final(reader).data() == old(reader).data(),
        final(reader).pos() >= old(reader).pos(),
        prv(res, final(reader).pos()) == sp_repeat(count as nat, old(reader).pos(), texture_param_item(old(reader).data())),
{
    let ghost d = reader.data();
    let ghost p = reader.pos();
    let mut out: Vec<MaterialTextureParam> = Vec::new();
    let mut i: usize = 0;
    while i < count
        invariant
            reader.data() == d,
            reader.pos() >= p,
            i <= count,
            sp_repeat(i as nat, p, texture_param_item(d)) == Ok::<(Seq<MaterialTextureParam>, int), Error>((out@, reader.pos())),
        decreases count - i,
    {
        let v = match read_texture_param(reader) {
            Ok(v) => v,
            Err(e) => {
                proof {
                    lemma_repeat_err((i + 1) as nat, count as nat, p, texture_param_item(d));
                }
                return Err(e);
            },
        };
        out.push(v);
        i = i + 1;
    }
    Ok(out)
}

#[verifier::loop_isolation(false)]
fn read_vector4ds(reader: &mut BinaryReader, count: usize) -> (res: Result<Vec<Vector4D>, Error>)
    ensures
        final(reader).data() == old(reader).data(),
        final(reader).pos() >= old(reader).pos(),
        prv(res, final(reader).pos()) == sp_repeat(count as nat, old(reader).pos(), vector4d_item(old(reader).data())),
{
    let ghost d = reader.data();
    let ghost p = reader.pos();
    let mut out: Vec<Vector4D> = Vec::new();
    let mut i: usize = 0;
    while i < count
        invariant
            reader.data() == d,
            reader.pos() >= p,
            i <= count,
            sp_repeat(i as nat, p, vector4d_item(d)) == Ok::<(Seq<Vector4D>, int), Error>((out@, reader.pos())),
        decreases count - i,
    {
        let v = match read_vector4d(reader) {
            Ok(v) => v,
            Err(e) => {
                proof {
                    lemma_repeat_err((i + 1) as nat, count as nat, p, vector4d_item(d));
                }
                return Err(e);
            },
        };
        out.push(v);
        i = i + 1;
    }
    Ok(out)
}

/// The models of a vector of gradients.
pub open spec fn gradients_view(v: Seq<Gradient>) -> Seq<SpecGradient> {
    v.map_values(|g: Gradient| g@)
}

/// Read `count` gradients.
#[verifier::loop_isolation(false)]
pub fn read_gradients(reader: &mut BinaryReader, count: usize) -> (res: Result<Vec<Gradient>, Error>)
    ensures
        final(reader).data() == old(reader).data(),
        final(reader).pos() >= old(reader).pos(),
        match (res, sp_repeat(count as nat, old(reader).pos(), gradient_item(old(reader).data()))) {
            (Ok(v), Ok((w, q))) => gradients_view(v@) == w && q == final(reader).pos(),
            (Err(e), Err(f)) => e == f,
            _ => false,
        },
{
    let ghost d = reader.data();
    let ghost p = reader.pos();
    let mut out: Vec<Gradient> = Vec::new();
    proof {
        assert(gradients_view(out@) =~= Seq::<SpecGradient>::empty());
    }
    let mut i: usize = 0;
    while i < count
        invariant
            reader.data() == d,
            reader.pos() >= p,
            i <= count,
            sp_repeat(i as nat, p, gradient_item(d)) == Ok::<(Seq<SpecGradient>, int), Error>(
                (gradients_view(out@), reader.pos()),
            ),
        decreases count - i,
    {
        let g = match parse_gradient(reader) {
            Ok(g) => g,
            Err(e) => {
                proof {
                    lemma_repeat_err((i + 1) as nat, count as nat, p, gradient_item(d));
                }
                return Err(e);
            },
        };
        let ghost before = out@;
        out.push(g);
        proof {
            assert(gradients_view(out@) =~= gradients_view(before).push(g@));
        }
        i = i + 1;
    }
    Ok(out)
}

fn read_material_gradients(reader: &mut BinaryReader, version: i32) -> (res: Result<Vec<Gradient>, Error>)
    ensures
        final(reader).data() == old(reader).data(),
        final(reader).pos() >= old(reader).pos(),
        match (res, sp_material_gradients(old(reader).data(), old(reader).pos(), version)) {
            (Ok(v), Ok((w, q))) => gradients_view(v@) == w && q == final(reader).pos(),
            (Err(e), Err(f)) => e == f,
            _ => false,
        },
{
    if version >= 1703 {
        let n = #[verifier::truncate] (reader.read_i32()? as usize);
        read_gradients(reader, n)
    } else {
        let v: Vec<Gradient> = Vec::new();
        proof {
            assert(gradients_view(v@) =~= Seq::<SpecGradient>::empty());
        }
        Ok(v)
    }
}

/// Parse the data of a file material.
pub fn parse_material_file_data(reader: &mut BinaryReader, version: i32) -> (res: Result<MaterialFileData, Error>)
    ensures
        final(reader).data() == old(reader).data(),
        final(reader).pos() >= old(reader).pos(),
        prv(res, final(reader).pos()) == sp_material_file_data(old(reader).data(), old(reader).pos(), version),
{
    let material_index = reader.read_i32()?;
    let tc = #[verifier::truncate] (reader.read_i32()? as usize);
    let texture_indexes = read_texture_params(reader, tc)?;
    let uc = #[verifier::truncate] (reader.read_i32()? as usize);
    let uniforms = read_vector4ds(reader, uc)?;
    let gradients = read_material_gradients(reader, version)?;
    Ok(MaterialFileData { material_index, texture_indexes, uniforms, gradients })
}

// ---------------------------------------------------------------- textures

/// Texture indexes and material data of the renderer.
pub struct RcTextures {
    /// Color texture index (`-1` for file materials).
    pub color_texture_index: i32,
    /// Normal texture index (`-1` for file materials).
    pub normal_texture_index: i32,
    /// Alpha texture index.
    pub alpha_texture_index: Option<i32>,
    /// UV distortion texture index.
    pub uv_distortion_texture_index: Option<i32>,
    /// Blend texture index.
    pub blend_texture_index: Option<i32>,
    /// Blend alpha texture index.
    pub blend_alpha_texture_index: Option<i32>,
    /// Blend UV distortion texture index.
    pub blend_uv_distortion_texture_index: Option<i32>,
    /// Data of a file material.
    pub material_data: Option<MaterialFileData>,
}

/// Model of [`RcTextures`].
pub struct SpecRcTextures {
    /// Color texture index.
    pub color_texture_index: i32,
    /// Normal texture index.
    pub normal_texture_index: i32,
    /// Alpha texture index.
    pub alpha_texture_index: Option<i32>,
    /// UV distortion texture index.
    pub uv_distortion_texture_index: Option<i32>,
    /// Blend texture index.
    pub blend_texture_index: Option<i32>,
    /// Blend alpha texture index.
    pub blend_alpha_texture_index: Option<i32>,
    /// Blend UV distortion texture index.
    pub blend_uv_distortion_texture_index: Option<i32>,
    /// Data of a file material.
    pub material_data: Option<SpecMaterialFileData>,
}

impl View for RcTextures {
    type V = SpecRcTextures;

    open spec fn view(&self) -> SpecRcTextures {
        SpecRcTextures {
            color_texture_index: self.color_texture_index,
            normal_texture_index: self.normal_texture_index,
            alpha_texture_index: self.alpha_texture_index,
            uv_distortion_texture_index: self.uv_distortion_texture_index,
            blend_texture_index: self.blend_texture_index,
            blend_alpha_texture_index: self.blend_alpha_texture_index,
            blend_uv_distortion_texture_index: self.blend_uv_distortion_texture_index,
            material_data: match self.material_data { Some(m) => Some(m@), None => None },
        }
    }
}

/// Whether a material kind is built in (rather than a material file).
pub open spec fn is_builtin(t: RendererMaterialType) -> bool {
    t == RendererMaterialType::Default || t == RendererMaterialType::BackDistortion || t
        == RendererMaterialType::Lighting
}

/// Five optional texture indexes (present from version 1600).
pub open spec fn sp_extra_textures(d: Seq<u8>, p: int, present: bool) -> PR<(Option<i32>, Option<i32>, Option<i32>, Option<i32>, Option<i32>)> {
    if present {
        chain(sp_i32(d, p), |a: i32, p: int|
        chain(sp_i32(d, p), |b: i32, p: int|
        chain(sp_i32(d, p), |c: i32, p: int|
        chain(sp_i32(d, p), |e: i32, p: int|
        chain(sp_i32(d, p), |f: i32, p: int|
        Ok(((Some(a), Some(b), Some(c), Some(e), Some(f)), p)))))))
    } else {
        Ok(((None, None, None, None, None), p))
    }
}

/// The texture part: indexes for built-in materials, material data for files.
pub open spec fn sp_rc_textures(d: Seq<u8>, p: int, version: i32, t: RendererMaterialType) -> PR<SpecRcTextures> {
    if is_builtin(t) {
        chain(sp_i32(d, p), |color: i32, p: int|
        chain(sp_i32(d, p), |normal: i32, p: int|
        chain(sp_extra_textures(d, p, version >= 1600), |x: (Option<i32>, Option<i32>, Option<i32>, Option<i32>, Option<i32>), p: int|
        Ok((SpecRcTextures {
            color_texture_index: color,
            normal_texture_index: normal,
            alpha_texture_index: x.0,
            uv_distortion_texture_index: x.1,
            blend_texture_index: x.2,
            blend_alpha_texture_index: x.3,
            blend_uv_distortion_texture_index: x.4,
            material_data: None,
        }, p)))))
    } else {
        chain(sp_material_file_data(d, p, version), |m: SpecMaterialFileData, p: int|
        Ok((SpecRcTextures {
            color_texture_index: -1i32,
            normal_texture_index: -1i32,
            alpha_texture_index: None,
            uv_distortion_texture_index: None,
            blend_texture_index: None,
            blend_alpha_texture_index: None,
            blend_uv_distortion_texture_index: None,
            material_data: Some(m),
        }, p)))
    }
}

fn read_extra_textures(reader: &mut BinaryReader, present: bool) -> (res: Result<(Option<i32>, Option<i32>, Option<i32>, Option<i32>, Option<i32>), Error>)
    ensures
        final(reader).data() == old(reader).data(),
        final(reader).pos() >= old(reader).pos(),
        pr(res, final(reader).pos()) == sp_extra_textures(old(reader).data(), old(reader).pos(), present),
{
    if present {
        let a = reader.read_i32()?;
        let b = reader.read_i32()?;
        let c = reader.read_i32()?;
        let e = reader.read_i32()?;
        let f = reader.read_i32()?;
        Ok((Some(a), Some(b), Some(c), Some(e), Some(f)))
    } else {
        Ok((None, None, None, None, None))
    }
}

fn parse_rc_textures(reader: &mut BinaryReader, version: i32, t: RendererMaterialType) -> (res: Result<RcTextures, Error>)
    ensures
        final(reader).data() == old(reader).data(),
        final(reader).pos() >= old(reader).pos(),
        prv(res, final(reader).pos()) == sp_rc_textures(old(reader).data(), old(reader).pos(), version, t),
{
    let builtin = t == RendererMaterialType::Default || t == RendererMaterialType::BackDistortion || t
        == RendererMaterialType::Lighting;
    if builtin {
        let color = reader.read_i32()?;
        let normal = reader.read_i32()?;
        let x = read_extra_textures(reader, version >= 1600)?;
        Ok(RcTextures {
            color_texture_index: color,
            normal_texture_index: normal,
            alpha_texture_index: x.0,
            uv_distortion_texture_index: x.1,
            blend_texture_index: x.2,
            blend_alpha_texture_index: x.3,
            blend_uv_distortion_texture_index: x.4,
            material_data: None,
        })
    } else {
        let m = parse_material_file_data(reader, version)?;
        Ok(RcTextures {
            color_texture_index: -1,
            normal_texture_index: -1,
            alpha_texture_index: None,
            uv_distortion_texture_index: None,
            blend_texture_index: None,
            blend_alpha_texture_index: None,
            blend_uv_distortion_texture_index: None,
            material_data: Some(m),
        })
    }
}

// ---------------------------------------------------------------- sampling

/// A filter and a wrap mode.
pub open spec fn sp_sampler(d: Seq<u8>, p: int, cfg: ParseConfig, lf: &'static str, lw: &'static str) -> PR<(TextureFilterType, TextureWrapType)> {
    chain(sp_enum::<TextureFilterType>(d, p, cfg, lf), |f: TextureFilterType, p: int|
    chain(sp_enum::<TextureWrapType>(d, p, cfg, lw), |w: TextureWrapType, p: int|
    Ok(((f, w), p))))
}

/// The samplers of slots 2 to 6 (from version 1600).
pub open spec fn sp_samplers_2_6(d: Seq<u8>, p: int, cfg: ParseConfig) -> PR<(Seq<TextureFilterType>, Seq<TextureWrapType>)> {
    chain(sp_sampler(d, p, cfg, "RendererCommon.filter2", "RendererCommon.wrap2"), |s2: (TextureFilterType, TextureWrapType), p: int|
    chain(sp_sampler(d, p, cfg, "RendererCommon.filter3", "RendererCommon.wrap3"), |s3: (TextureFilterType, TextureWrapType), p: int|
    chain(sp_sampler(d, p, cfg, "RendererCommon.filter4", "RendererCommon.wrap4"), |s4: (TextureFilterType, TextureWrapType), p: int|
    chain(sp_sampler(d, p, cfg, "RendererCommon.filter5", "RendererCommon.wrap5"), |s5: (TextureFilterType, TextureWrapType), p: int|
    chain(sp_sampler(d, p, cfg, "RendererCommon.filter6", "RendererCommon.wrap6"), |s6: (TextureFilterType, TextureWrapType), p: int|
    Ok(((seq![s2.0, s3.0, s4.0, s5.0, s6.0], seq![s2.1, s3.1, s4.1, s5.1, s6.1]), p)))))))
}

/// The samplers: slots 0 and 1, then slots 2 to 6 from version 1600.
pub open spec fn sp_samplers(d: Seq<u8>, p: int, version: i32, cfg: ParseConfig) -> PR<(Seq<TextureFilterType>, Seq<TextureWrapType>)> {
    chain(sp_sampler(d, p, cfg, "RendererCommon.filter0", "RendererCommon.wrap0"), |s0: (TextureFilterType, TextureWrapType), p: int|
    chain(sp_sampler(d, p, cfg, "RendererCommon.filter1", "RendererCommon.wrap1"), |s1: (TextureFilterType, TextureWrapType), p: int|
    if version >= 1600 {
        chain(sp_samplers_2_6(d, p, cfg), |r: (Seq<TextureFilterType>, Seq<TextureWrapType>), p: int|
        Ok(((seq![s0.0, s1.0] + r.0, seq![s0.1, s1.1] + r.1), p)))
    } else {
        Ok(((seq![s0.0, s1.0], seq![s0.1, s1.1]), p))
    }))
}

fn read_sampler(reader: &mut BinaryReader, config: &ParseConfig, lf: &'static str, lw: &'static str) -> (res: Result<(TextureFilterType, TextureWrapType), Error>)
    ensures
        final(reader).data() == old(reader).data(),
        final(reader).pos() >= old(reader).pos(),
        pr(res, final(reader).pos()) == sp_sampler(old(reader).data(), old(reader).pos(), *config, lf, lw),
{
    let f: TextureFilterType = reader.read_enum(config, lf)?;
    let w: TextureWrapType = reader.read_enum(config, lw)?;
    Ok((f, w))
}

fn read_samplers(reader: &mut BinaryReader, version: i32, config: &ParseConfig) -> (res: Result<(Vec<TextureFilterType>, Vec<TextureWrapType>), Error>)
    ensures
        final(reader).data() == old(reader).data(),
        final(reader).pos() >= old(reader).pos(),
        match (res, sp_samplers(old(reader).data(), old(reader).pos(), version, *config)) {
            (Ok(v), Ok((w, q))) => v.0@ == w.0 && v.1@ == w.1 && q == final(reader).pos(),
            (Err(e), Err(f)) => e == f,
            _ => false,
        },
{
    let s0 = read_sampler(reader, config, "RendererCommon.filter0", "RendererCommon.wrap0")?;
    let s1 = read_sampler(reader, config, "RendererCommon.filter1", "RendererCommon.wrap1")?;
    let mut filters: Vec<TextureFilterType> = vec![s0.0, s1.0];
    let mut wraps: Vec<TextureWrapType> = vec![s0.1, s1.1];
    if version >= 1600 {
        let s2 = read_sampler(reader, config, "RendererCommon.filter2", "RendererCommon.wrap2")?;
        let s3 = read_sampler(reader, config, "RendererCommon.filter3", "RendererCommon.wrap3")?;
        let s4 = read_sampler(reader, config, "RendererCommon.filter4", "RendererCommon.wrap4")?;
        let s5 = read_sampler(reader, config, "RendererCommon.filter5", "RendererCommon.wrap5")?;
        let s6 = read_sampler(reader, config, "RendererCommon.filter6", "RendererCommon.wrap6")?;
        filters.push(s2.0);
        filters.push(s3.0);
        filters.push(s4.0);
        filters.push(s5.0);
        filters.push(s6.0);
        wraps.push(s2.1);
        wraps.push(s3.1);
        wraps.push(s4.1);
        wraps.push(s5.1);
        wraps.push(s6.1);
        proof {
            assert(filters@ =~= seq![s0.0, s1.0] + seq![s2.0, s3.0, s4.0, s5.0, s6.0]);
            assert(wraps@ =~= seq![s0.1, s1.1] + seq![s2.1, s3.1, s4.1, s5.1, s6.1]);
        }
    } else {
        proof {
            assert(filters@ =~= seq![s0.0, s1.0]);
            assert(wraps@ =~= seq![s0.1, s1.1]);
        }
    }
    Ok((filters, wraps))
}

// ---------------------------------------------------------------- fades

/// The frame and cubic coefficients of a fade.
pub open spec fn sp_fade_param(d: Seq<u8>, p: int) -> PR<FadeParam> {
    chain(sp_u32(d, p), |frame: u32, p: int|
    chain(sp_u32(d, p), |a: u32, p: int|
    chain(sp_u32(d, p), |b: u32, p: int|
    chain(sp_u32(d, p), |c: u32, p: int|
    Ok((FadeParam { frame, value: EasingFloatWithoutRandom { a, b, c } }, p))))))
}

/// A fade-in: kind, then the fade unless the kind is none.
pub open spec fn sp_fade_in(d: Seq<u8>, p: int, cfg: ParseConfig) -> PR<Option<FadeParam>> {
    chain(sp_enum::<FadeInType>(d, p, cfg, "RendererCommon.fade_in_type"), |t: FadeInType, p: int|
    if t != FadeInType::NoFade {
        chain(sp_fade_param(d, p), |f: FadeParam, p: int| Ok((Some(f), p)))
    } else {
        Ok((None, p))
    })
}

/// A fade-out: kind, then the fade unless the kind is none.
pub open spec fn sp_fade_out(d: Seq<u8>, p: int, cfg: ParseConfig) -> PR<Option<FadeParam>> {
    chain(sp_enum::<FadeOutType>(d, p, cfg, "RendererCommon.fade_out_type"), |t: FadeOutType, p: int|
    if t != FadeOutType::NoFade {
        chain(sp_fade_param(d, p), |f: FadeParam, p: int| Ok((Some(f), p)))
    } else {
        Ok((None, p))
    })
}

fn read_fade_param(reader: &mut BinaryReader) -> (res: Result<FadeParam, Error>)
    ensures
        final(reader).data() == old(reader).data(),
        final(reader).pos() >= old(reader).pos(),
        pr(res, final(reader).pos()) == sp_fade_param(old(reader).data(), old(reader).pos()),
{
    let frame = reader.read_f32()?;
    let a = reader.read_f32()?;
    let b = reader.read_f32()?;
    let c = reader.read_f32()?;
    Ok(FadeParam { frame, value: EasingFloatWithoutRandom { a, b, c } })
}

fn read_fade_in(reader: &mut BinaryReader, config: &ParseConfig) -> (res: Result<Option<FadeParam>, Error>)
    ensures
        final(reader).data() == old(reader).data(),
        final(reader).pos() >= old(reader).pos(),
        pr(res, final(reader).pos()) == sp_fade_in(old(reader).data(), old(reader).pos(), *config),
{
    let t: FadeInType = reader.read_enum(config, "RendererCommon.fade_in_type")?;
    if t != FadeInType::NoFade {
        let f = read_fade_param(reader)?;
        Ok(Some(f))
    } else {
        Ok(None)
    }
}

fn read_fade_out(reader: &mut BinaryReader, config: &ParseConfig) -> (res: Result<Option<FadeParam>, Error>)
    ensures
        final(reader).data() == old(reader).data(),
        final(reader).pos() >= old(reader).pos(),
        pr(res, final(reader).pos()) == sp_fade_out(old(reader).data(), old(reader).pos(), *config),
{
    let t: FadeOutType = reader.read_enum(config, "RendererCommon.fade_out_type")?;
    if t != FadeOutType::NoFade {
        let f = read_fade_param(reader)?;
        Ok(Some(f))
    } else {
        Ok(None)
    }
}

// ---------------------------------------------------------------- UVs

/// The UV part of the renderer.
pub struct RcUv {
    /// UV parameters: one slot, or six from version 1600.
    pub uv_params: Vec<UVParameter>,
    /// UV distortion intensity (from version 1600).
    pub uv_distortion_intensity: Option<u32>,
    /// Texture blend type (from version 1600).
    pub texture_blend_type: Option<AlphaBlendType>,
    /// Blend UV distortion intensity (from version 1600).
    pub blend_uv_distortion_intensity: Option<u32>,
}

/// Model of [`RcUv`].
pub struct SpecRcUv {
    /// UV parameters.
    pub uv_params: Seq<SpecUVParameter>,
    /// UV distortion intensity.
    pub uv_distortion_intensity: Option<u32>,
    /// Texture blend type.
    pub texture_blend_type: Option<AlphaBlendType>,
    /// Blend UV distortion intensity.
    pub blend_uv_distortion_intensity: Option<u32>,
}

/// The models of a vector of UV parameters.
pub open spec fn uvs_view(v: Seq<UVParameter>) -> Seq<SpecUVParameter> {
    v.map_values(|u: UVParameter| u@)
}

impl View for RcUv {
    type V = SpecRcUv;

    open spec fn view(&self) -> SpecRcUv {
        SpecRcUv {
            uv_params: uvs_view(self.uv_params@),
            uv_distortion_intensity: self.uv_distortion_intensity,
            texture_blend_type: self.texture_blend_type,
            blend_uv_distortion_intensity: self.blend_uv_distortion_intensity,
        }
    }
}

/// The texture blend type of a raw code: negative codes stand for `Blend`.
pub open spec fn blend_of_code(raw: i32) -> AlphaBlendType {
    if raw >= 0 {
        AlphaBlendType::spec_from_code(raw)
    } else {
        AlphaBlendType::Blend
    }
}

/// UV slots 1 and 2 and the UV distortion intensity.
pub open spec fn sp_uv_1_2(d: Seq<u8>, p: int, version: i32, cfg: ParseConfig) -> PR<(SpecUVParameter, SpecUVParameter, u32)> {
    chain(sp_uv(d, p, version, cfg, 1), |u1: SpecUVParameter, p: int|
    chain(sp_uv(d, p, version, cfg, 2), |u2: SpecUVParameter, p: int|
    chain(sp_u32(d, p), |i: u32, p: int|
    Ok(((u1, u2, i), p)))))
}

/// UV slot 3 and the texture blend code.
pub open spec fn sp_uv_3(d: Seq<u8>, p: int, version: i32, cfg: ParseConfig) -> PR<(SpecUVParameter, i32)> {
    chain(sp_uv(d, p, version, cfg, 3), |u3: SpecUVParameter, p: int|
    chain(sp_i32(d, p), |raw: i32, p: int|
    Ok(((u3, raw), p))))
}

/// UV slots 4 and 5 and the blend UV distortion intensity.
pub open spec fn sp_uv_4_5(d: Seq<u8>, p: int, version: i32, cfg: ParseConfig) -> PR<(SpecUVParameter, SpecUVParameter, u32)> {
    chain(sp_uv(d, p, version, cfg, 4), |u4: SpecUVParameter, p: int|
    chain(sp_uv(d, p, version, cfg, 5), |u5: SpecUVParameter, p: int|
    chain(sp_u32(d, p), |i: u32, p: int|
    Ok(((u4, u5, i), p)))))
}

/// The UV part: slot 0; from version 1600 slots 1 to 5 with the intensities
/// and the texture blend type between them.
pub open spec fn sp_rc_uv(d: Seq<u8>, p: int, version: i32, cfg: ParseConfig) -> PR<SpecRcUv> {
    chain(sp_uv(d, p, version, cfg, 0), |u0: SpecUVParameter, p: int|
    if version >= 1600 {
        chain(sp_uv_1_2(d, p, version, cfg), |a: (SpecUVParameter, SpecUVParameter, u32), p: int|
        chain(sp_uv_3(d, p, version, cfg), |b: (SpecUVParameter, i32), p: int|
        chain(sp_uv_4_5(d, p, version, cfg), |c: (SpecUVParameter, SpecUVParameter, u32), p: int|
        Ok((SpecRcUv {
            uv_params: seq![u0, a.0, a.1, b.0, c.0, c.1],
            uv_distortion_intensity: Some(a.2),
            texture_blend_type: Some(blend_of_code(b.1)),
            blend_uv_distortion_intensity: Some(c.2),
        }, p)))))
    } else {
        Ok((SpecRcUv {
            uv_params: seq![u0],
            uv_distortion_intensity: None,
            texture_blend_type: None,
            blend_uv_distortion_intensity: None,
        }, p))
    })
}

fn read_uv_1_2(reader: &mut BinaryReader, version: i32, config: &ParseConfig) -> (res: Result<(UVParameter, UVParameter, u32), Error>)
    ensures
        final(reader).data() == old(reader).data(),
        final(reader).pos() >= old(reader).pos(),
        match (res, sp_uv_1_2(old(reader).data(), old(reader).pos(), version, *config)) {
            (Ok(v), Ok((w, q))) => v.0@ == w.0 && v.1@ == w.1 && v.2 == w.2 && q == final(reader).pos(),
            (Err(e), Err(f)) => e == f,
            _ => false,
        },
{
    let u1 = parse_uv(reader, version, config, 1)?;
    let u2 = parse_uv(reader, version, config, 2)?;
    let i = reader.read_f32()?;
    Ok((u1, u2, i))
}

fn read_uv_3(reader: &mut BinaryReader, version: i32, config: &ParseConfig) -> (res: Result<(UVParameter, i32), Error>)
    ensures
        final(reader).data() == old(reader).data(),
        final(reader).pos() >= old(reader).pos(),
        match (res, sp_uv_3(old(reader).data(), old(reader).pos(), version, *config)) {
            (Ok(v), Ok((w, q))) => v.0@ == w.0 && v.1 == w.1 && q == final(reader).pos(),
            (Err(e), Err(f)) => e == f,
            _ => false,
        },
{
    let u3 = parse_uv(reader, version, config, 3)?;
    let raw = reader.read_i32()?;
    Ok((u3, raw))
}

fn read_uv_4_5(reader: &mut BinaryReader, version: i32, config: &ParseConfig) -> (res: Result<(UVParameter, UVParameter, u32), Error>)
    ensures
        final(reader).data() == old(reader).data(),
        final(reader).pos() >= old(reader).pos(),
        match (res, sp_uv_4_5(old(reader).data(), old(reader).pos(), version, *config)) {
            (Ok(v), Ok((w, q))) => v.0@ == w.0 && v.1@ == w.1 && v.2 == w.2 && q == final(reader).pos(),
            (Err(e), Err(f)) => e == f,
            _ => false,
        },
{
    let u4 = parse_uv(reader, version, config, 4)?;
    let u5 = parse_uv(reader, version, config, 5)?;
    let i = reader.read_f32()?;
    Ok((u4, u5, i))
}

fn blend_from_code(raw: i32) -> (t: AlphaBlendType)
    ensures
        t == blend_of_code(raw),
{
    if raw >= 0 {
        AlphaBlendType::from_code(raw)
    } else {
        AlphaBlendType::Blend
    }
}

fn parse_rc_uv(reader: &mut BinaryReader, version: i32, config: &ParseConfig) -> (res: Result<RcUv, Error>)
    ensures
        final(reader).data() == old(reader).data(),
        final(reader).pos() >= old(reader).pos(),
        prv(res, final(reader).pos()) == sp_rc_uv(old(reader).data(), old(reader).pos(), version, *config),
{
    let u0 = parse_uv(reader, version, config, 0)?;
    let mut uv_params: Vec<UVParameter> = Vec::new();
    uv_params.push(u0);
    if version >= 1600 {
        let a = read_uv_1_2(reader, version, config)?;
        let b = read_uv_3(reader, version, config)?;
        let c = read_uv_4_5(reader, version, config)?;
        let ghost g = (u0@, a.0@, a.1@, b.0@, c.0@, c.1@);
        uv_params.push(a.0);
        uv_params.push(a.1);
        uv_params.push(b.0);
        uv_params.push(c.0);
        uv_params.push(c.1);
        proof {
            assert(uvs_view(uv_params@) =~= seq![g.0, g.1, g.2, g.3, g.4, g.5]);
        }
        Ok(RcUv {
            uv_params,
            uv_distortion_intensity: Some(a.2),
            texture_blend_type: Some(blend_from_code(b.1)),
            blend_uv_distortion_intensity: Some(c.2),
        })
    } else {
        proof {
            assert(uvs_view(uv_params@) =~= seq![u0@]);
        }
        Ok(RcUv {
            uv_params,
            uv_distortion_intensity: None,
            texture_blend_type: None,
            blend_uv_distortion_intensity: None,
        })
    }
}

// ---------------------------------------------------------------- tail

/// The last fields of the renderer.
pub struct RcTail {
    /// Probability of a horizontal UV flip (from version 1801).
    pub uv_horizontal_flip_probability: Option<i32>,
    /// Color inheritance.
    pub color_bind_type: BindType,
    /// Distortion intensity.
    pub distortion_intensity: u32,
    /// First custom data.
    pub custom_data1: ParameterCustomData,
    /// Second custom data.
    pub custom_data2: ParameterCustomData,
}

/// Model of [`RcTail`].
pub struct SpecRcTail {
    /// Probability of a horizontal UV flip.
    pub uv_horizontal_flip_probability: Option<i32>,
    /// Color inheritance.
    pub color_bind_type: BindType,
    /// Distortion intensity.
    pub distortion_intensity: u32,
    /// First custom data.
    pub custom_data1: SpecParameterCustomData,
    /// Second custom data.
    pub custom_data2: SpecParameterCustomData,
}

impl View for RcTail {
    type V = SpecRcTail;

    open spec fn view(&self) -> SpecRcTail {
        SpecRcTail {
            uv_horizontal_flip_probability: self.uv_horizontal_flip_probability,
            color_bind_type: self.color_bind_type,
            distortion_intensity: self.distortion_intensity,
            custom_data1: self.custom_data1@,
            custom_data2: self.custom_data2@,
        }
    }
}

/// Flip probability (from version 1801), color inheritance, distortion
/// intensity and two custom data parameters.
pub open spec fn sp_rc_tail(d: Seq<u8>, p: int, version: i32, cfg: ParseConfig) -> PR<SpecRcTail> {
    chain(
        if version >= 1801 { chain(sp_i32(d, p), |v: i32, p: int| Ok((Some(v), p))) } else { Ok((None, p)) },
        |flip: Option<i32>, p: int|
    chain(sp_enum::<BindType>(d, p, cfg, "RendererCommon.color_bind_type"), |color_bind_type: BindType, p: int|
    chain(sp_u32(d, p), |distortion_intensity: u32, p: int|
    chain(sp_custom_data(d, p, version, cfg), |custom_data1: SpecParameterCustomData, p: int|
    chain(sp_custom_data(d, p, version, cfg), |custom_data2: SpecParameterCustomData, p: int|
    Ok((SpecRcTail {
        uv_horizontal_flip_probability: flip,
        color_bind_type,
        distortion_intensity,
        custom_data1,
        custom_data2,
    }, p)))))))
}

fn parse_rc_tail(reader: &mut BinaryReader, version: i32, config: &ParseConfig) -> (res: Result<RcTail, Error>)
    ensures
        final(reader).data() == old(reader).data(),
        final(reader).pos() >= old(reader).pos(),
        prv(res, final(reader).pos()) == sp_rc_tail(old(reader).data(), old(reader).pos(), version, *config),
{
    let flip = if version >= 1801 {
        Some(reader.read_i32()?)
    } else {
        None
    };
    let color_bind_type: BindType = reader.read_enum(config, "RendererCommon.color_bind_type")?;
    let distortion_intensity = reader.read_f32()?;
    let custom_data1 = parse_custom_data(reader, version, config)?;
    let custom_data2 = parse_custom_data(reader, version, config)?;
    Ok(RcTail { uv_horizontal_flip_probability: flip, color_bind_type, distortion_intensity, custom_data1, custom_data2 })
}

// ---------------------------------------------------------------- whole

/// The emissive scaling: from version 1600, for the `Default` and `Lighting` materials.
pub open spec fn sp_emissive(d: Seq<u8>, p: int, version: i32, t: RendererMaterialType) -> PR<Option<u32>> {
    if version >= 1600 && (t == RendererMaterialType::Default || t == RendererMaterialType::Lighting) {
        chain(sp_u32(d, p), |v: u32, p: int| Ok((Some(v), p)))
    } else {
        Ok((None, p))
    }
}

/// The renderer parameters assembled from their parts.
pub open spec fn rc_of(
    material_type: RendererMaterialType,
    emissive_scaling: Option<u32>,
    tex: SpecRcTextures,
    alpha_blend: AlphaBlendType,
    sampling: (Seq<TextureFilterType>, Seq<TextureWrapType>),
    z: (bool, bool),
    fades: (Option<FadeParam>, Option<FadeParam>),
    uv: SpecRcUv,
    tail: SpecRcTail,
) -> SpecParameterRendererCommon {
    SpecParameterRendererCommon {
        material_type,
        emissive_scaling,
        color_texture_index: tex.color_texture_index,
        normal_texture_index: tex.normal_texture_index,
        alpha_texture_index: tex.alpha_texture_index,
        uv_distortion_texture_index: tex.uv_distortion_texture_index,
        blend_texture_index: tex.blend_texture_index,
        blend_alpha_texture_index: tex.blend_alpha_texture_index,
        blend_uv_distortion_texture_index: tex.blend_uv_distortion_texture_index,
        material_data: tex.material_data,
        alpha_blend,
        texture_filters: sampling.0,
        texture_wraps: sampling.1,
        z_test: z.0,
        z_write: z.1,
        fade_in: fades.0,
        fade_out: fades.1,
        uv_params: uv.uv_params,
        uv_distortion_intensity: uv.uv_distortion_intensity,
        texture_blend_type: uv.texture_blend_type,
        blend_uv_distortion_intensity: uv.blend_uv_distortion_intensity,
        uv_horizontal_flip_probability: tail.uv_horizontal_flip_probability,
        color_bind_type: tail.color_bind_type,
        distortion_intensity: tail.distortion_intensity,
        custom_data1: tail.custom_data1,
        custom_data2: tail.custom_data2,
    }
}

/// Z test and Z write flags.
pub open spec fn sp_z(d: Seq<u8>, p: int) -> PR<(bool, bool)> {
    chain(sp_bool(d, p), |t: bool, p: int| chain(sp_bool(d, p), |w: bool, p: int| Ok(((t, w), p))))
}

/// Fade-in and fade-out.
pub open spec fn sp_fades(d: Seq<u8>, p: int, cfg: ParseConfig) -> PR<(Option<FadeParam>, Option<FadeParam>)> {
    chain(sp_fade_in(d, p, cfg), |i: Option<FadeParam>, p: int|
    chain(sp_fade_out(d, p, cfg), |o: Option<FadeParam>, p: int| Ok(((i, o), p))))
}

/// The renderer common parameters of a node.
pub open spec fn sp_renderer_common(d: Seq<u8>, p: int, version: i32, cfg: ParseConfig) -> PR<SpecParameterRendererCommon> {
    chain(sp_enum::<RendererMaterialType>(d, p, cfg, "RendererCommon.material_type"), |mt: RendererMaterialType, p: int|
    chain(sp_emissive(d, p, version, mt), |emissive_scaling: Option<u32>, p: int|
    chain(sp_rc_textures(d, p, version, mt), |tex: SpecRcTextures, p: int|
    chain(sp_enum::<AlphaBlendType>(d, p, cfg, "RendererCommon.alpha_blend"), |alpha_blend: AlphaBlendType, p: int|
    chain(sp_samplers(d, p, version, cfg), |sampling: (Seq<TextureFilterType>, Seq<TextureWrapType>), p: int|
    chain(sp_z(d, p), |z: (bool, bool), p: int|
    chain(sp_fades(d, p, cfg), |fades: (Option<FadeParam>, Option<FadeParam>), p: int|
    chain(sp_rc_uv(d, p, version, cfg), |uv: SpecRcUv, p: int|
    chain(sp_rc_tail(d, p, version, cfg), |tail: SpecRcTail, p: int|
    Ok((rc_of(mt, emissive_scaling, tex, alpha_blend, sampling, z, fades, uv, tail), p)))))))))))
}

fn read_emissive(reader: &mut BinaryReader, version: i32, t: RendererMaterialType) -> (res: Result<Option<u32>, Error>)
    ensures
        final(reader).data() == old(reader).data(),
        final(reader).pos() >= old(reader).pos(),
        pr(res, final(reader).pos()) == sp_emissive(old(reader).data(), old(reader).pos(), version, t),
{
    if version >= 1600 && (t == RendererMaterialType::Default || t == RendererMaterialType::Lighting) {
        let v = reader.read_f32()?;
        Ok(Some(v))
    } else {
        Ok(None)
    }
}

fn read_z(reader: &mut BinaryReader) -> (res: Result<(bool, bool), Error>)
    ensures
        final(reader).data() == old(reader).data(),
        final(reader).pos() >= old(reader).pos(),
        pr(res, final(reader).pos()) == sp_z(old(reader).data(), old(reader).pos()),
{
    let t = reader.read_i32_as_bool()?;
    let w = reader.read_i32_as_bool()?;
    Ok((t, w))
}

fn read_fades(reader: &mut BinaryReader, config: &ParseConfig) -> (res: Result<(Option<FadeParam>, Option<FadeParam>), Error>)
    ensures
        final(reader).data() == old(reader).data(),
        final(reader).pos() >= old(reader).pos(),
        pr(res, final(reader).pos()) == sp_fades(old(reader).data(), old(reader).pos(), *config),
{
    let i = read_fade_in(reader, config)?;
    let o = read_fade_out(reader, config)?;
    Ok((i, o))
}

/// Parse the renderer common parameters of a node.
pub fn parse_renderer_common(reader: &mut BinaryReader, version: i32, config: &ParseConfig) -> (res: Result<ParameterRendererCommon, Error>)
    ensures
        final(reader).data() == old(reader).data(),
        final(reader).pos() >= old(reader).pos(),
        prv(res, final(reader).pos()) == sp_renderer_common(old(reader).data(), old(reader).pos(), version, *config),
{
    let material_type: RendererMaterialType = reader.read_enum(config, "RendererCommon.material_type")?;
    let emissive_scaling = read_emissive(reader, version, material_type)?;
    let tex = parse_rc_textures(reader, version, material_type)?;
    let alpha_blend: AlphaBlendType = reader.read_enum(config, "RendererCommon.alpha_blend")?;
    let sampling = read_samplers(reader, version, config)?;
    let z = read_z(reader)?;
    let fades = read_fades(reader, config)?;
    let uv = parse_rc_uv(reader, version, config)?;
    let tail = parse_rc_tail(reader, version, config)?;
    Ok(ParameterRendererCommon {
        material_type,
        emissive_scaling,
        color_texture_index: tex.color_texture_index,
        normal_texture_index: tex.normal_texture_index,
        alpha_texture_index: tex.alpha_texture_index,
        uv_distortion_texture_index: tex.uv_distortion_texture_index,
        blend_texture_index: tex.blend_texture_index,
        blend_alpha_texture_index: tex.blend_alpha_texture_index,
        blend_uv_distortion_texture_index: tex.blend_uv_distortion_texture_index,
        material_data: tex.material_data,
        alpha_blend,
        texture_filters: sampling.0,
        texture_wraps: sampling.1,
        z_test: z.0,
        z_write: z.1,
        fade_in: fades.0,
        fade_out: fades.1,
        uv_params: uv.uv_params,
        uv_distortion_intensity: uv.uv_distortion_intensity,
        texture_blend_type: uv.texture_blend_type,
        blend_uv_distortion_intensity: uv.blend_uv_distortion_intensity,
        uv_horizontal_flip_probability: tail.uv_horizontal_flip_probability,
        color_bind_type: tail.color_bind_type,
        distortion_intensity: tail.distortion_intensity,
        custom_data1: tail.custom_data1,
        custom_data2: tail.custom_data2,
    })
}

} // verus!
