//! Effect nodes.

use vstd::prelude::*;

use super::alpha_cutoff::{AlphaCutoffParameter, SpecAlphaCutoffParameter};
use super::collision::CollisionsParameter;
use super::common_values::ParameterCommonValues;
use super::custom_data::{ParameterCustomData, SpecParameterCustomData};
use super::depth::ParameterDepthValues;
use super::enums::EffectNodeType;
use super::force_field::LocalForceFieldElement;
use super::gpu_particles::{GpuParticlesParameter, SpecGpuParticlesParameter};
use super::kill_rules::KillRulesParameter;
use super::params::{LODsParam, RotationParameter, ScalingParameter, SpawnLocationParameter, SpecRotationParameter, SpecScalingParameter, SpecTranslationParameter, SteeringBehaviorParam, TranslationParameter};
use super::renderer::{FalloffParameter, RendererVariant, SpecRendererVariant};
use super::renderer_common::{ParameterRendererCommon, SpecParameterRendererCommon};
use super::sound::ParameterSound;

verus! {

/// Soft particle distances.
#[derive(Clone, Copy, Debug, PartialEq, Eq, Structural)]
pub struct SoftParticleParam {
    /// Far distance (v1603+).
    pub distance_far: u32,
    /// Near distance (v1604+).
    pub distance_near: u32,
    /// Near offset (v1604+).
    pub distance_near_offset: u32,
}

/// All parameters of a non-root node.
#[derive(Clone, Debug, PartialEq)]
pub struct NodeParams {
    /// Drawn.
    pub is_rendered: bool,
    /// Priority.
    pub rendering_priority: i32,
    /// Common values.
    pub common_values: ParameterCommonValues,
    /// Steering.
    pub steering_behavior: Option<SteeringBehaviorParam>,
    /// LODs (v1702+).
    pub lods: Option<LODsParam>,
    /// Translation.
    pub translation: TranslationParameter,
    /// Local force fields.
    pub force_fields: Vec<LocalForceFieldElement>,
    /// Rotation.
    pub rotation: RotationParameter,
    /// Scaling.
    pub scaling: ScalingParameter,
    /// Spawn location.
    pub spawn_location: SpawnLocationParameter,
    /// Spawn location affects rotation.
    pub spawn_effects_rotation: bool,
    /// Depth.
    pub depth: ParameterDepthValues,
    /// Kill rules.
    pub kill_rules: KillRulesParameter,
    /// Collisions.
    pub collisions: CollisionsParameter,
    /// Renderer settings.
    pub renderer_common: ParameterRendererCommon,
    /// Alpha cutoff.
    pub alpha_cutoff: AlphaCutoffParameter,
    /// Falloff (v1602+).
    pub falloff: Option<FalloffParameter>,
    /// Soft particle.
    pub soft_particle: SoftParticleParam,
    /// Renderer.
    pub renderer: RendererVariant,
    /// Sound.
    pub sound: ParameterSound,
    /// GPU particles.
    pub gpu_particles: Option<GpuParticlesParameter>,
    /// First custom data (as in the renderer settings).
    pub custom_data1: ParameterCustomData,
    /// Second custom data (as in the renderer settings).
    pub custom_data2: ParameterCustomData,
}

/// Model of [`NodeParams`].
pub struct SpecNodeParams {
    /// Drawn.
    pub is_rendered: bool,
    /// Priority.
    pub rendering_priority: i32,
    /// Common values.
    pub common_values: ParameterCommonValues,
    /// Steering.
    pub steering_behavior: Option<SteeringBehaviorParam>,
    /// LODs (v1702+).
    pub lods: Option<LODsParam>,
    /// Translation.
    pub translation: SpecTranslationParameter,
    /// Local force fields.
    pub force_fields: Seq<LocalForceFieldElement>,
    /// Rotation.
    pub rotation: SpecRotationParameter,
    /// Scaling.
    pub scaling: SpecScalingParameter,
    /// Spawn location.
    pub spawn_location: SpawnLocationParameter,
    /// Spawn location affects rotation.
    pub spawn_effects_rotation: bool,
    /// Depth.
    pub depth: ParameterDepthValues,
    /// Kill rules.
    pub kill_rules: KillRulesParameter,
    /// Collisions.
    pub collisions: CollisionsParameter,
    /// Renderer settings.
    pub renderer_common: SpecParameterRendererCommon,
    /// Alpha cutoff.
    pub alpha_cutoff: SpecAlphaCutoffParameter,
    /// Falloff (v1602+).
    pub falloff: Option<FalloffParameter>,
    /// Soft particle.
    pub soft_particle: SoftParticleParam,
    /// Renderer.
    pub renderer: SpecRendererVariant,
    /// Sound.
    pub sound: ParameterSound,
    /// GPU particles.
    pub gpu_particles: Option<SpecGpuParticlesParameter>,
    /// First custom data (as in the renderer settings).
    pub custom_data1: SpecParameterCustomData,
    /// Second custom data (as in the renderer settings).
    pub custom_data2: SpecParameterCustomData,
}

impl View for NodeParams {
    type V = SpecNodeParams;

    open spec fn view(&self) -> SpecNodeParams {
        SpecNodeParams {
            is_rendered: self.is_rendered,
            rendering_priority: self.rendering_priority,
            common_values: self.common_values,
            steering_behavior: self.steering_behavior,
            lods: self.lods,
            translation: self.translation@,
            force_fields: self.force_fields@,
            rotation: self.rotation@,
            scaling: self.scaling@,
            spawn_location: self.spawn_location,
            spawn_effects_rotation: self.spawn_effects_rotation,
            depth: self.depth,
            kill_rules: self.kill_rules,
            collisions: self.collisions,
            renderer_common: self.renderer_common@,
            alpha_cutoff: self.alpha_cutoff@,
            falloff: self.falloff,
            soft_particle: self.soft_particle,
            renderer: self.renderer@,
            sound: self.sound,
            gpu_particles: match self.gpu_particles { Some(x) => Some(x@), None => None },
            custom_data1: self.custom_data1@,
            custom_data2: self.custom_data2@,
        }
    }
}

/// A node of the effect tree.
#[derive(Debug)]
pub struct EffectNode {
    /// Kind.
    pub node_type: EffectNodeType,
    /// Children.
    pub children: Vec<EffectNode>,
    /// Parameters (`None` for the root).
    pub params: Option<NodeParams>,
}

/// Model of [`EffectNode`].
pub struct SpecEffectNode {
    /// Kind.
    pub node_type: EffectNodeType,
    /// Children.
    pub children: Seq<SpecEffectNode>,
    /// Parameters (`None` for the root).
    pub params: Option<SpecNodeParams>,
}

impl View for EffectNode {
    type V = SpecEffectNode;

    open spec fn view(&self) -> SpecEffectNode
        decreases self,
    {
        SpecEffectNode {
            node_type: self.node_type,
            children: Seq::new(
                self.children@.len(),
                |i: int|
                    {
                        if 0 <= i < self.children@.len() {
                            proof {
                                vstd::std_specs::vec::axiom_vec_index_decreases(self.children, i);
                            }
                            self.children@[i]@
                        } else {
                            arbitrary()
                        }
                    },
            ),
            params: match self.params { Some(x) => Some(x@), None => None },
        }
    }
}

} // verus!
