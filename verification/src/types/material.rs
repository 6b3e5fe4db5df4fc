//! Material files.

use vstd::prelude::*;

use super::enums::{MaterialRequiredMethod, MaterialUniformType, ShadingModelType, TextureColorType, TextureWrapType};
use super::gradient::{Gradient, SpecGradient};
use super::primitives::Vector4D;

verus! {

/// A texture slot of a material.
#[derive(Clone, Debug, PartialEq)]
pub struct MaterialTexture {
    /// Name.
    pub name: String,
    /// Shader name (version 3+).
    pub uniform_name: Option<String>,
    /// Index.
    pub index: i32,
    /// Priority.
    pub priority: i32,
    /// Parameter.
    pub param: i32,
    /// Sampling.
    pub color_type: TextureColorType,
    /// Wrapping.
    pub sampler: TextureWrapType,
}

/// Model of [`MaterialTexture`].
pub struct SpecMaterialTexture {
    /// Name.
    pub name: Seq<char>,
    /// Shader name (version 3+).
    pub uniform_name: Option<Seq<char>>,
    /// Index.
    pub index: i32,
    /// Priority.
    pub priority: i32,
    /// Parameter.
    pub param: i32,
    /// Sampling.
    pub color_type: TextureColorType,
    /// Wrapping.
    pub sampler: TextureWrapType,
}

impl View for MaterialTexture {
    type V = SpecMaterialTexture;

    open spec fn view(&self) -> SpecMaterialTexture {
        SpecMaterialTexture {
            name: self.name@,
            uniform_name: match self.uniform_name { Some(x) => Some(x@), None => None },
            index: self.index,
            priority: self.priority,
            param: self.param,
            color_type: self.color_type,
            sampler: self.sampler,
        }
    }
}

/// A uniform of a material.
#[derive(Clone, Debug, PartialEq)]
pub struct MaterialUniform {
    /// Name.
    pub name: String,
    /// Shader name (version 3+).
    pub uniform_name: Option<String>,
    /// Offset.
    pub offset: i32,
    /// Priority.
    pub priority: i32,
    /// Type.
    pub value_type: MaterialUniformType,
    /// Default values.
    pub default_values: Vector4D,
}

/// Model of [`MaterialUniform`].
pub struct SpecMaterialUniform {
    /// Name.
    pub name: Seq<char>,
    /// Shader name (version 3+).
    pub uniform_name: Option<Seq<char>>,
    /// Offset.
    pub offset: i32,
    /// Priority.
    pub priority: i32,
    /// Type.
    pub value_type: MaterialUniformType,
    /// Default values.
    pub default_values: Vector4D,
}

impl View for MaterialUniform {
    type V = SpecMaterialUniform;

    open spec fn view(&self) -> SpecMaterialUniform {
        SpecMaterialUniform {
            name: self.name@,
            uniform_name: match self.uniform_name { Some(x) => Some(x@), None => None },
            offset: self.offset,
            priority: self.priority,
            value_type: self.value_type,
            default_values: self.default_values,
        }
    }
}

/// A gradient parameter of a material.
#[derive(Clone, Debug, PartialEq)]
pub struct MaterialGradient {
    /// Name.
    pub name: String,
    /// Shader name.
    pub uniform_name: Option<String>,
    /// Default gradient.
    pub gradient: Gradient,
}

/// Model of [`MaterialGradient`].
pub struct SpecMaterialGradient {
    /// Name.
    pub name: Seq<char>,
    /// Shader name.
    pub uniform_name: Option<Seq<char>>,
    /// Default gradient.
    pub gradient: SpecGradient,
}

impl View for MaterialGradient {
    type V = SpecMaterialGradient;

    open spec fn view(&self) -> SpecMaterialGradient {
        SpecMaterialGradient {
            name: self.name@,
            uniform_name: match self.uniform_name { Some(x) => Some(x@), None => None },
            gradient: self.gradient@,
        }
    }
}

/// A parsed `.efkmat` file.
#[derive(Clone, Debug, PartialEq)]
pub struct MaterialFile {
    /// Version.
    pub version: i32,
    /// GUID.
    pub guid: u64,
    /// Shading.
    pub shading_model: ShadingModelType,
    /// Refraction.
    pub has_refraction: bool,
    /// First custom data size.
    pub custom_data_1_count: i32,
    /// Second custom data size.
    pub custom_data_2_count: i32,
    /// Required functions.
    pub required_methods: Vec<MaterialRequiredMethod>,
    /// Textures.
    pub textures: Vec<MaterialTexture>,
    /// Uniforms.
    pub uniforms: Vec<MaterialUniform>,
    /// Gradients.
    pub gradients: Vec<MaterialGradient>,
    /// Fixed gradients.
    pub fixed_gradients: Vec<MaterialGradient>,
    /// Shader code.
    pub code: Option<String>,
}

/// Model of [`MaterialFile`].
pub struct SpecMaterialFile {
    /// Version.
    pub version: i32,
    /// GUID.
    pub guid: u64,
    /// Shading.
    pub shading_model: ShadingModelType,
    /// Refraction.
    pub has_refraction: bool,
    /// First custom data size.
    pub custom_data_1_count: i32,
    /// Second custom data size.
    pub custom_data_2_count: i32,
    /// Required functions.
    pub required_methods: Seq<MaterialRequiredMethod>,
    /// Textures.
    pub textures: Seq<SpecMaterialTexture>,
    /// Uniforms.
    pub uniforms: Seq<SpecMaterialUniform>,
    /// Gradients.
    pub gradients: Seq<SpecMaterialGradient>,
    /// Fixed gradients.
    pub fixed_gradients: Seq<SpecMaterialGradient>,
    /// Shader code.
    pub code: Option<Seq<char>>,
}

impl View for MaterialFile {
    type V = SpecMaterialFile;

    open spec fn view(&self) -> SpecMaterialFile {
        SpecMaterialFile {
            version: self.version,
            guid: self.guid,
            shading_model: self.shading_model,
            has_refraction: self.has_refraction,
            custom_data_1_count: self.custom_data_1_count,
            custom_data_2_count: self.custom_data_2_count,
            required_methods: self.required_methods@,
            textures: self.textures@.map_values(|x: MaterialTexture| x@),
            uniforms: self.uniforms@.map_values(|x: MaterialUniform| x@),
            gradients: self.gradients@.map_values(|x: MaterialGradient| x@),
            fixed_gradients: self.fixed_gradients@.map_values(|x: MaterialGradient| x@),
            code: match self.code { Some(x) => Some(x@), None => None },
        }
    }
}

} // verus!
