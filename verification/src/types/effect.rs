//! Effects.

use vstd::prelude::*;

use super::enums::CullingShape;
use super::node::{EffectNode, SpecEffectNode};
use super::primitives::Vector3D;
use super::procedural_model::ProceduralModelParameter;

verus! {

/// Culling volume.
#[derive(Clone, Copy, Debug, PartialEq, Eq, Structural)]
pub struct CullingInfo {
    /// Shape.
    pub shape: CullingShape,
    /// Center.
    pub location: Vector3D,
    /// Radius.
    pub radius: u32,
}

/// A parsed effect.
#[derive(Debug)]
pub struct Effect {
    /// Binary version.
    pub version: i32,
    /// Magnification.
    pub magnification: u32,
    /// Random seed.
    pub random_seed: i32,
    /// Culling.
    pub culling: Option<CullingInfo>,
    /// LOD distances (v1702+).
    pub lod_distances: Option<Vector3D>,
    /// Color textures.
    pub color_images: Vec<String>,
    /// Normal textures.
    pub normal_images: Vec<String>,
    /// Distortion textures.
    pub distortion_images: Vec<String>,
    /// Sounds.
    pub sounds: Vec<String>,
    /// Models.
    pub models: Vec<String>,
    /// Materials.
    pub materials: Vec<String>,
    /// Curves (v1607+).
    pub curves: Vec<String>,
    /// Procedural models (v1607+).
    pub procedural_models: Vec<ProceduralModelParameter>,
    /// Dynamic inputs (`f32` bits).
    pub dynamic_inputs: Vec<u32>,
    /// Dynamic equation bytecode.
    pub dynamic_equations: Vec<Vec<u8>>,
    /// Rendering node count.
    pub rendering_node_count: i32,
    /// Rendering threshold.
    pub rendering_threshold: i32,
    /// The root node.
    pub root: EffectNode,
}

/// Model of [`Effect`].
pub struct SpecEffect {
    /// Binary version.
    pub version: i32,
    /// Magnification.
    pub magnification: u32,
    /// Random seed.
    pub random_seed: i32,
    /// Culling.
    pub culling: Option<CullingInfo>,
    /// LOD distances (v1702+).
    pub lod_distances: Option<Vector3D>,
    /// Color textures.
    pub color_images: Seq<Seq<char>>,
    /// Normal textures.
    pub normal_images: Seq<Seq<char>>,
    /// Distortion textures.
    pub distortion_images: Seq<Seq<char>>,
    /// Sounds.
    pub sounds: Seq<Seq<char>>,
    /// Models.
    pub models: Seq<Seq<char>>,
    /// Materials.
    pub materials: Seq<Seq<char>>,
    /// Curves (v1607+).
    pub curves: Seq<Seq<char>>,
    /// Procedural models (v1607+).
    pub procedural_models: Seq<ProceduralModelParameter>,
    /// Dynamic inputs (`f32` bits).
    pub dynamic_inputs: Seq<u32>,
    /// Dynamic equation bytecode.
    pub dynamic_equations: Seq<Seq<u8>>,
    /// Rendering node count.
    pub rendering_node_count: i32,
    /// Rendering threshold.
    pub rendering_threshold: i32,
    /// The root node.
    pub root: SpecEffectNode,
}

impl View for Effect {
    type V = SpecEffect;

    open spec fn view(&self) -> SpecEffect {
        SpecEffect {
            version: self.version,
            magnification: self.magnification,
            random_seed: self.random_seed,
            culling: self.culling,
            lod_distances: self.lod_distances,
            color_images: self.color_images@.map_values(|x: String| x@),
            normal_images: self.normal_images@.map_values(|x: String| x@),
            distortion_images: self.distortion_images@.map_values(|x: String| x@),
            sounds: self.sounds@.map_values(|x: String| x@),
            models: self.models@.map_values(|x: String| x@),
            materials: self.materials@.map_values(|x: String| x@),
            curves: self.curves@.map_values(|x: String| x@),
            procedural_models: self.procedural_models@,
            dynamic_inputs: self.dynamic_inputs@,
            dynamic_equations: self.dynamic_equations@.map_values(|x: Vec<u8>| x@),
            rendering_node_count: self.rendering_node_count,
            rendering_threshold: self.rendering_threshold,
            root: self.root@,
        }
    }
}

} // verus!
