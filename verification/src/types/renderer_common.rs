//! Renderer settings shared by all node kinds.

use vstd::prelude::*;

use super::custom_data::{ParameterCustomData, SpecParameterCustomData};
use super::enums::{AlphaBlendType, BindType, RendererMaterialType, TextureFilterType, TextureWrapType};
use super::gradient::{Gradient, SpecGradient};
use super::primitives::{EasingFloatWithoutRandom, Vector4D};
use super::uv::{SpecUVParameter, UVParameter};

verus! {

/// A texture bound to a material file.
#[derive(Clone, Copy, Debug, PartialEq, Eq, Structural)]
pub struct MaterialTextureParam {
    /// Texture kind.
    pub texture_type: i32,
    /// Texture index.
    pub index: i32,
}

/// Parameters of a file material.
#[derive(Clone, Debug, PartialEq)]
pub struct MaterialFileData {
    /// Material index.
    pub material_index: i32,
    /// Textures.
    pub texture_indexes: Vec<MaterialTextureParam>,
    /// Uniform values.
    pub uniforms: Vec<Vector4D>,
    /// Gradients (v1703+).
    pub gradients: Vec<Gradient>,
}

/// Model of [`MaterialFileData`].
pub struct SpecMaterialFileData {
    /// Material index.
    pub material_index: i32,
    /// Textures.
    pub texture_indexes: Seq<MaterialTextureParam>,
    /// Uniform values.
    pub uniforms: Seq<Vector4D>,
    /// Gradients (v1703+).
    pub gradients: Seq<SpecGradient>,
}

impl View for MaterialFileData {
    type V = SpecMaterialFileData;

    open spec fn view(&self) -> SpecMaterialFileData {
        SpecMaterialFileData {
            material_index: self.material_index,
            texture_indexes: self.texture_indexes@,
            uniforms: self.uniforms@,
            gradients: self.gradients@.map_values(|x: Gradient| x@),
        }
    }
}

/// A fade.
#[derive(Clone, Copy, Debug, PartialEq, Eq, Structural)]
pub struct FadeParam {
    /// Length in frames.
    pub frame: u32,
    /// Fade curve.
    pub value: EasingFloatWithoutRandom,
}

/// Renderer settings shared by all node kinds.
#[derive(Clone, Debug, PartialEq)]
pub struct ParameterRendererCommon {
    /// Material.
    pub material_type: RendererMaterialType,
    /// Emissive scaling (`f32` bits).
    pub emissive_scaling: Option<u32>,
    /// Color texture (`-1` for file materials).
    pub color_texture_index: i32,
    /// Normal texture (`-1` for file materials).
    pub normal_texture_index: i32,
    /// Alpha texture.
    pub alpha_texture_index: Option<i32>,
    /// UV distortion texture.
    pub uv_distortion_texture_index: Option<i32>,
    /// Blend texture.
    pub blend_texture_index: Option<i32>,
    /// Blend alpha texture.
    pub blend_alpha_texture_index: Option<i32>,
    /// Blend UV distortion texture.
    pub blend_uv_distortion_texture_index: Option<i32>,
    /// File material parameters.
    pub material_data: Option<MaterialFileData>,
    /// Blending.
    pub alpha_blend: AlphaBlendType,
    /// Filters (2, or 7 from v1600).
    pub texture_filters: Vec<TextureFilterType>,
    /// Wraps (2, or 7 from v1600).
    pub texture_wraps: Vec<TextureWrapType>,
    /// Depth test.
    pub z_test: bool,
    /// Depth write.
    pub z_write: bool,
    /// Fade-in.
    pub fade_in: Option<FadeParam>,
    /// Fade-out.
    pub fade_out: Option<FadeParam>,
    /// UV parameters (1, or 6 from v1600).
    pub uv_params: Vec<UVParameter>,
    /// UV distortion intensity.
    pub uv_distortion_intensity: Option<u32>,
    /// Texture blending.
    pub texture_blend_type: Option<AlphaBlendType>,
    /// Blend UV distortion intensity.
    pub blend_uv_distortion_intensity: Option<u32>,
    /// Horizontal flip probability (v1801+).
    pub uv_horizontal_flip_probability: Option<i32>,
    /// Color inheritance.
    pub color_bind_type: BindType,
    /// Distortion intensity.
    pub distortion_intensity: u32,
    /// First custom data.
    pub custom_data1: ParameterCustomData,
    /// Second custom data.
    pub custom_data2: ParameterCustomData,
}

/// Model of [`ParameterRendererCommon`].
pub struct SpecParameterRendererCommon {
    /// Material.
    pub material_type: RendererMaterialType,
    /// Emissive scaling (`f32` bits).
    pub emissive_scaling: Option<u32>,
    /// Color texture (`-1` for file materials).
    pub color_texture_index: i32,
    /// Normal texture (`-1` for file materials).
    pub normal_texture_index: i32,
    /// Alpha texture.
    pub alpha_texture_index: Option<i32>,
    /// UV distortion texture.
    pub uv_distortion_texture_index: Option<i32>,
    /// Blend texture.
    pub blend_texture_index: Option<i32>,
    /// Blend alpha texture.
    pub blend_alpha_texture_index: Option<i32>,
    /// Blend UV distortion texture.
    pub blend_uv_distortion_texture_index: Option<i32>,
    /// File material parameters.
    pub material_data: Option<SpecMaterialFileData>,
    /// Blending.
    pub alpha_blend: AlphaBlendType,
    /// Filters (2, or 7 from v1600).
    pub texture_filters: Seq<TextureFilterType>,
    /// Wraps (2, or 7 from v1600).
    pub texture_wraps: Seq<TextureWrapType>,
    /// Depth test.
    pub z_test: bool,
    /// Depth write.
    pub z_write: bool,
    /// Fade-in.
    pub fade_in: Option<FadeParam>,
    /// Fade-out.
    pub fade_out: Option<FadeParam>,
    /// UV parameters (1, or 6 from v1600).
    pub uv_params: Seq<SpecUVParameter>,
    /// UV distortion intensity.
    pub uv_distortion_intensity: Option<u32>,
    /// Texture blending.
    pub texture_blend_type: Option<AlphaBlendType>,
    /// Blend UV distortion intensity.
    pub blend_uv_distortion_intensity: Option<u32>,
    /// Horizontal flip probability (v1801+).
    pub uv_horizontal_flip_probability: Option<i32>,
    /// Color inheritance.
    pub color_bind_type: BindType,
    /// Distortion intensity.
    pub distortion_intensity: u32,
    /// First custom data.
    pub custom_data1: SpecParameterCustomData,
    /// Second custom data.
    pub custom_data2: SpecParameterCustomData,
}

impl View for ParameterRendererCommon {
    type V = SpecParameterRendererCommon;

    open spec fn view(&self) -> SpecParameterRendererCommon {
        SpecParameterRendererCommon {
            material_type: self.material_type,
            emissive_scaling: self.emissive_scaling,
            color_texture_index: self.color_texture_index,
            normal_texture_index: self.normal_texture_index,
            alpha_texture_index: self.alpha_texture_index,
            uv_distortion_texture_index: self.uv_distortion_texture_index,
            blend_texture_index: self.blend_texture_index,
            blend_alpha_texture_index: self.blend_alpha_texture_index,
            blend_uv_distortion_texture_index: self.blend_uv_distortion_texture_index,
            material_data: match self.material_data { Some(x) => Some(x@), None => None },
            alpha_blend: self.alpha_blend,
            texture_filters: self.texture_filters@,
            texture_wraps: self.texture_wraps@,
            z_test: self.z_test,
            z_write: self.z_write,
            fade_in: self.fade_in,
            fade_out: self.fade_out,
            uv_params: self.uv_params@.map_values(|x: UVParameter| x@),
            uv_distortion_intensity: self.uv_distortion_intensity,
            texture_blend_type: self.texture_blend_type,
            blend_uv_distortion_intensity: self.blend_uv_distortion_intensity,
            uv_horizontal_flip_probability: self.uv_horizontal_flip_probability,
            color_bind_type: self.color_bind_type,
            distortion_intensity: self.distortion_intensity,
            custom_data1: self.custom_data1@,
            custom_data2: self.custom_data2@,
        }
    }
}

} // verus!
