//! Effect node tree parser (recursive, depth-limited).

use vstd::prelude::*;

use crate::config::ParseConfig;
use crate::error::Error;
use crate::reader::{chain, pr, prv, sp_bool, sp_color, sp_enum, sp_i32, sp_random_float, sp_u32, BinaryReader, PR};
use crate::types::alpha_cutoff::SpecAlphaCutoffParameter;
use crate::types::collision::CollisionsParameter;
use crate::types::common_values::ParameterCommonValues;
use crate::types::custom_data::{ParameterCustomData, SpecParameterCustomData};
use crate::types::depth::ParameterDepthValues;
use crate::types::enums::{EffectNodeType, FalloffBlendType, NonMatchingLODBehaviour, TranslationParentBindType};
use crate::types::fcurve::{FCurve, FCurveVector2D, FCurveVectorColor};
use crate::types::force_field::LocalForceFieldElement;
use crate::types::gpu_particles::SpecGpuParticlesParameter;
use crate::types::kill_rules::KillRulesParameter;
use crate::types::node::{EffectNode, NodeParams, SoftParticleParam, SpecEffectNode, SpecNodeParams};
use crate::types::params::{
    LODsParam, SpawnLocationParameter, SpecRotationParameter, SpecScalingParameter,
    SpecTranslationParameter, SteeringBehaviorParam,
};
use crate::types::primitives::{Color, RandomFloat};
use crate::types::renderer::{FalloffParameter, SpecRendererVariant};
use crate::types::renderer_common::SpecParameterRendererCommon;
use crate::types::sound::ParameterSound;

use super::alpha_cutoff::{parse_alpha_cutoff, sp_alpha_cutoff};
use super::collision::{parse_collisions, sp_collisions};
use super::common_values::{parse_common_values, parse_trigger_param, sp_common_values, sp_trigger_param};
use super::depth::{parse_depth, sp_depth};
use super::force_field::{parse_force_fields, sp_force_fields};
use super::gpu_particles::{parse_gpu_particles, sp_gpu_particles};
use super::kill_rules::{parse_kill_rules, sp_kill_rules};
use super::renderer::{parse_renderer, sp_renderer};
use super::renderer_common::{parse_renderer_common, sp_renderer_common};
use super::rotation::{parse_rotation, sp_rotation};
use super::scaling::{parse_scaling, sp_scaling};
use super::sound::{parse_sound, sp_sound};
use super::spawn::{parse_spawn_location, sp_spawn_location};
use super::translation::{parse_translation, sp_translation};

verus! {

// ---------------------------------------------------------------- copies of custom data

fn copy_fcurve(f: &FCurve) -> (r: FCurve)
    ensures
        r@ == f@,
{
    let keys = f.keys.clone();
    proof {
        assert(keys@ =~= f.keys@);
    }
    FCurve {
        start_edge: f.start_edge,
        end_edge: f.end_edge,
        offset_max: f.offset_max,
        offset_min: f.offset_min,
        offset: f.offset,
        len: f.len,
        freq: f.freq,
        keys,
    }
}

/// A copy of a custom data parameter, equal to it in the model.
pub fn copy_custom_data(c: &ParameterCustomData) -> (r: ParameterCustomData)
    ensures
        r@ == c@,
{
    match c {
        ParameterCustomData::NoData => ParameterCustomData::NoData,
        ParameterCustomData::Fixed2D(v) => ParameterCustomData::Fixed2D(*v),
        ParameterCustomData::Random2D(v) => ParameterCustomData::Random2D(*v),
        ParameterCustomData::Easing2D(v) => ParameterCustomData::Easing2D(*v),
        ParameterCustomData::FCurve2D(f) => ParameterCustomData::FCurve2D(
            Box::new(FCurveVector2D { timeline: f.timeline, x: copy_fcurve(&f.x), y: copy_fcurve(&f.y) }),
        ),
        ParameterCustomData::Fixed4D(v) => ParameterCustomData::Fixed4D(*v),
        ParameterCustomData::FCurveColor(f) => ParameterCustomData::FCurveColor(
            Box::new(
                FCurveVectorColor {
                    timeline: f.timeline,
                    r: copy_fcurve(&f.r),
                    g: copy_fcurve(&f.g),
                    b: copy_fcurve(&f.b),
                    a: copy_fcurve(&f.a),
                },
            ),
        ),
        ParameterCustomData::DynamicInput => ParameterCustomData::DynamicInput,
    }
}

// ---------------------------------------------------------------- node parameters

/// Steering towards the parent: from version 1600, for the two follow-parent
/// translation modes.
pub open spec fn sp_steering(d: Seq<u8>, p: int, version: i32, bind: TranslationParentBindType) -> PR<Option<SteeringBehaviorParam>> {
    if version >= 1600 && (bind == TranslationParentBindType::NotBindFollowParent || bind
        == TranslationParentBindType::WhenCreatingFollowParent) {
        chain(sp_random_float(d, p), |max_follow_speed: RandomFloat, p: int|
        chain(sp_random_float(d, p), |steering_speed: RandomFloat, p: int|
        Ok((Some(SteeringBehaviorParam { max_follow_speed, steering_speed }), p))))
    } else {
        Ok((None, p))
    }
}

/// Level-of-detail settings (from version 1702).
pub open spec fn sp_lods(d: Seq<u8>, p: int, version: i32, cfg: ParseConfig) -> PR<Option<LODsParam>> {
    if version >= 1702 {
        chain(sp_i32(d, p), |matching_lods: i32, p: int|
        chain(sp_enum::<NonMatchingLODBehaviour>(d, p, cfg, "LODs.behaviour"), |lod_behaviour: NonMatchingLODBehaviour, p: int|
        Ok((Some(LODsParam { matching_lods, lod_behaviour }), p))))
    } else {
        Ok((None, p))
    }
}

/// The first part of the node parameters: rendered flag, priority, common
/// values (with the trigger block applied), steering, LODs.
pub open spec fn sp_node_head(d: Seq<u8>, p: int, version: i32, cfg: ParseConfig) -> PR<
    (bool, i32, ParameterCommonValues, Option<SteeringBehaviorParam>, Option<LODsParam>),
> {
    chain(sp_bool(d, p), |is_rendered: bool, p: int|
    chain(sp_i32(d, p), |rendering_priority: i32, p: int|
    chain(sp_common_values(d, p, version, cfg), |cv: ParameterCommonValues, p: int|
    chain(sp_steering(d, p, version, cv.translation_bind_type), |steering: Option<SteeringBehaviorParam>, p: int|
    chain(sp_trigger_param(d, p, version, cv), |cv2: ParameterCommonValues, p: int|
    chain(sp_lods(d, p, version, cfg), |lods: Option<LODsParam>, p: int|
    Ok(((is_rendered, rendering_priority, cv2, steering, lods), p))))))))
}

/// Translation, force fields, rotation and scaling.
pub open spec fn sp_node_motion(d: Seq<u8>, p: int, version: i32, cfg: ParseConfig) -> PR<
    (SpecTranslationParameter, Seq<LocalForceFieldElement>, SpecRotationParameter, SpecScalingParameter),
> {
    chain(sp_translation(d, p, version, cfg), |t: SpecTranslationParameter, p: int|
    chain(sp_force_fields(d, p, version, cfg), |f: Seq<LocalForceFieldElement>, p: int|
    chain(sp_rotation(d, p, version, cfg), |r: SpecRotationParameter, p: int|
    chain(sp_scaling(d, p, version, cfg), |s: SpecScalingParameter, p: int|
    Ok(((t, f, r, s), p))))))
}

/// Spawn location, depth, kill rules and collisions.
pub open spec fn sp_node_place(d: Seq<u8>, p: int, version: i32, cfg: ParseConfig) -> PR<
    ((bool, SpawnLocationParameter), ParameterDepthValues, KillRulesParameter, CollisionsParameter),
> {
    chain(sp_spawn_location(d, p, version, cfg), |s: (bool, SpawnLocationParameter), p: int|
    chain(sp_depth(d, p, cfg), |dv: ParameterDepthValues, p: int|
    chain(sp_kill_rules(d, p, version, cfg), |k: KillRulesParameter, p: int|
    chain(sp_collisions(d, p, version, cfg), |c: CollisionsParameter, p: int|
    Ok(((s, dv, k, c), p))))))
}

/// The falloff of a node (from version 1602): a flag, then the falloff when it is `1`.
pub open spec fn sp_node_falloff(d: Seq<u8>, p: int, version: i32, cfg: ParseConfig) -> PR<Option<FalloffParameter>> {
    if version >= 1602 {
        chain(sp_i32(d, p), |flag: i32, p: int|
        if flag == 1 {
            chain(sp_enum::<FalloffBlendType>(d, p, cfg, "Falloff.color_blend_type"), |color_blend_type: FalloffBlendType, p: int|
            chain(sp_color(d, p), |begin_color: Color, p: int|
            chain(sp_color(d, p), |end_color: Color, p: int|
            chain(sp_u32(d, p), |pow: u32, p: int|
            Ok((Some(FalloffParameter { color_blend_type, begin_color, end_color, pow }), p))))))
        } else {
            Ok((None, p))
        })
    } else {
        Ok((None, p))
    }
}

/// Soft particle distances: far from version 1603, near and offset from 1604; zero otherwise.
pub open spec fn sp_soft_particle(d: Seq<u8>, p: int, version: i32) -> PR<SoftParticleParam> {
    chain(if version >= 1603 { sp_u32(d, p) } else { Ok((0u32, p)) }, |far: u32, p: int|
    chain(if version >= 1604 { sp_u32(d, p) } else { Ok((0u32, p)) }, |near: u32, p: int|
    chain(if version >= 1604 { sp_u32(d, p) } else { Ok((0u32, p)) }, |offset: u32, p: int|
    Ok((SoftParticleParam { distance_far: far, distance_near: near, distance_near_offset: offset }, p)))))
}

/// Renderer settings, alpha cutoff, falloff and soft particle.
pub open spec fn sp_node_look(d: Seq<u8>, p: int, version: i32, cfg: ParseConfig) -> PR<
    (SpecParameterRendererCommon, SpecAlphaCutoffParameter, Option<FalloffParameter>, SoftParticleParam),
> {
    chain(sp_renderer_common(d, p, version, cfg), |rc: SpecParameterRendererCommon, p: int|
    chain(sp_alpha_cutoff(d, p, version, cfg), |ac: SpecAlphaCutoffParameter, p: int|
    chain(sp_node_falloff(d, p, version, cfg), |f: Option<FalloffParameter>, p: int|
    chain(sp_soft_particle(d, p, version), |sp: SoftParticleParam, p: int|
    Ok(((rc, ac, f, sp), p))))))
}

/// Renderer, sound and GPU particles.
pub open spec fn sp_node_output(d: Seq<u8>, p: int, node_type: EffectNodeType, version: i32, cfg: ParseConfig) -> PR<
    (SpecRendererVariant, ParameterSound, Option<SpecGpuParticlesParameter>),
> {
    chain(sp_renderer(d, p, node_type, version, cfg), |r: SpecRendererVariant, p: int|
    chain(sp_sound(d, p, cfg), |s: ParameterSound, p: int|
    chain(sp_gpu_particles(d, p, version, cfg), |g: Option<SpecGpuParticlesParameter>, p: int|
    Ok(((r, s, g), p)))))
}

/// The node parameters assembled from their parts; the custom data are those
/// of the renderer settings.
pub open spec fn node_params_of(
    head: (bool, i32, ParameterCommonValues, Option<SteeringBehaviorParam>, Option<LODsParam>),
    motion: (SpecTranslationParameter, Seq<LocalForceFieldElement>, SpecRotationParameter, SpecScalingParameter),
    place: ((bool, SpawnLocationParameter), ParameterDepthValues, KillRulesParameter, CollisionsParameter),
    look: (SpecParameterRendererCommon, SpecAlphaCutoffParameter, Option<FalloffParameter>, SoftParticleParam),
    out: (SpecRendererVariant, ParameterSound, Option<SpecGpuParticlesParameter>),
) -> SpecNodeParams {
    SpecNodeParams {
        is_rendered: head.0,
        rendering_priority: head.1,
        common_values: head.2,
        steering_behavior: head.3,
        lods: head.4,
        translation: motion.0,
        force_fields: motion.1,
        rotation: motion.2,
        scaling: motion.3,
        spawn_location: place.0.1,
        spawn_effects_rotation: place.0.0,
        depth: place.1,
        kill_rules: place.2,
        collisions: place.3,
        renderer_common: look.0,
        alpha_cutoff: look.1,
        falloff: look.2,
        soft_particle: look.3,
        renderer: out.0,
        sound: out.1,
        gpu_particles: out.2,
        custom_data1: look.0.custom_data1,
        custom_data2: look.0.custom_data2,
    }
}

/// The parameters of a non-root node.
#[verifier::opaque]
pub open spec fn sp_node_params(d: Seq<u8>, p: int, version: i32, cfg: ParseConfig, node_type: EffectNodeType) -> PR<SpecNodeParams> {
    chain(sp_node_head(d, p, version, cfg), |head: (bool, i32, ParameterCommonValues, Option<SteeringBehaviorParam>, Option<LODsParam>), p: int|
    chain(sp_node_motion(d, p, version, cfg), |motion: (SpecTranslationParameter, Seq<LocalForceFieldElement>, SpecRotationParameter, SpecScalingParameter), p: int|
    chain(sp_node_place(d, p, version, cfg), |place: ((bool, SpawnLocationParameter), ParameterDepthValues, KillRulesParameter, CollisionsParameter), p: int|
    chain(sp_node_look(d, p, version, cfg), |look: (SpecParameterRendererCommon, SpecAlphaCutoffParameter, Option<FalloffParameter>, SoftParticleParam), p: int|
    chain(sp_node_output(d, p, node_type, version, cfg), |out: (SpecRendererVariant, ParameterSound, Option<SpecGpuParticlesParameter>), p: int|
    Ok((node_params_of(head, motion, place, look, out), p)))))))
}

fn read_steering(reader: &mut BinaryReader, version: i32, bind: TranslationParentBindType) -> (res: Result<Option<SteeringBehaviorParam>, Error>)
    ensures
        final(reader).data() == old(reader).data(),
        final(reader).pos() >= old(reader).pos(),
        pr(res, final(reader).pos()) == sp_steering(old(reader).data(), old(reader).pos(), version, bind),
{
    if version >= 1600 && (bind == TranslationParentBindType::NotBindFollowParent || bind
        == TranslationParentBindType::WhenCreatingFollowParent) {
        let max_follow_speed = reader.read_random_float()?;
        let steering_speed = reader.read_random_float()?;
        Ok(Some(SteeringBehaviorParam { max_follow_speed, steering_speed }))
    } else {
        Ok(None)
    }
}

fn read_lods(reader: &mut BinaryReader, version: i32, config: &ParseConfig) -> (res: Result<Option<LODsParam>, Error>)
    ensures
        final(reader).data() == old(reader).data(),
        final(reader).pos() >= old(reader).pos(),
        pr(res, final(reader).pos()) == sp_lods(old(reader).data(), old(reader).pos(), version, *config),
{
    if version >= 1702 {
        let matching_lods = reader.read_i32()?;
        let lod_behaviour: NonMatchingLODBehaviour = reader.read_enum(config, "LODs.behaviour")?;
        Ok(Some(LODsParam { matching_lods, lod_behaviour }))
    } else {
        Ok(None)
    }
}

fn read_node_head(reader: &mut BinaryReader, version: i32, config: &ParseConfig) -> (res: Result<
    (bool, i32, ParameterCommonValues, Option<SteeringBehaviorParam>, Option<LODsParam>),
    Error,
>)
    ensures
        final(reader).data() == old(reader).data(),
        final(reader).pos() >= old(reader).pos(),
        pr(res, final(reader).pos()) == sp_node_head(old(reader).data(), old(reader).pos(), version, *config),
{
    let is_rendered = reader.read_i32_as_bool()?;
    let rendering_priority = reader.read_i32()?;
    let mut common_values = parse_common_values(reader, version, config)?;
    let steering = read_steering(reader, version, common_values.translation_bind_type)?;
    parse_trigger_param(reader, version, &mut common_values)?;
    let lods = read_lods(reader, version, config)?;
    Ok((is_rendered, rendering_priority, common_values, steering, lods))
}

/// Translation, force fields, rotation and scaling, as read.
pub struct NodeMotion {
    /// Translation.
    pub translation: crate::types::params::TranslationParameter,
    /// Force fields.
    pub force_fields: Vec<LocalForceFieldElement>,
    /// Rotation.
    pub rotation: crate::types::params::RotationParameter,
    /// Scaling.
    pub scaling: crate::types::params::ScalingParameter,
}

fn read_node_motion(reader: &mut BinaryReader, version: i32, config: &ParseConfig) -> (res: Result<NodeMotion, Error>)
    ensures
        final(reader).data() == old(reader).data(),
        final(reader).pos() >= old(reader).pos(),
        match (res, sp_node_motion(old(reader).data(), old(reader).pos(), version, *config)) {
            (Ok(v), Ok((w, q))) => v.translation@ == w.0 && v.force_fields@ == w.1 && v.rotation@ == w.2
                && v.scaling@ == w.3 && q == final(reader).pos(),
            (Err(e), Err(f)) => e == f,
            _ => false,
        },
{
    let translation = parse_translation(reader, version, config)?;
    let force_fields = parse_force_fields(reader, version, config)?;
    let rotation = parse_rotation(reader, version, config)?;
    let scaling = parse_scaling(reader, version, config)?;
    Ok(NodeMotion { translation, force_fields, rotation, scaling })
}

fn read_node_place(reader: &mut BinaryReader, version: i32, config: &ParseConfig) -> (res: Result<
    ((bool, SpawnLocationParameter), ParameterDepthValues, KillRulesParameter, CollisionsParameter),
    Error,
>)
    ensures
        final(reader).data() == old(reader).data(),
        final(reader).pos() >= old(reader).pos(),
        pr(res, final(reader).pos()) == sp_node_place(old(reader).data(), old(reader).pos(), version, *config),
{
    let s = parse_spawn_location(reader, version, config)?;
    let dv = parse_depth(reader, config)?;
    let k = parse_kill_rules(reader, version, config)?;
    let c = parse_collisions(reader, version, config)?;
    Ok((s, dv, k, c))
}

fn read_node_falloff(reader: &mut BinaryReader, version: i32, config: &ParseConfig) -> (res: Result<Option<FalloffParameter>, Error>)
    ensures
        final(reader).data() == old(reader).data(),
        final(reader).pos() >= old(reader).pos(),
        pr(res, final(reader).pos()) == sp_node_falloff(old(reader).data(), old(reader).pos(), version, *config),
{
    if version >= 1602 {
        let flag = reader.read_i32()?;
        if flag == 1 {
            let color_blend_type: FalloffBlendType = reader.read_enum(config, "Falloff.color_blend_type")?;
            let begin_color = reader.read_color()?;
            let end_color = reader.read_color()?;
            let pow = reader.read_f32()?;
            Ok(Some(FalloffParameter { color_blend_type, begin_color, end_color, pow }))
        } else {
            Ok(None)
        }
    } else {
        Ok(None)
    }
}

fn read_soft_particle(reader: &mut BinaryReader, version: i32) -> (res: Result<SoftParticleParam, Error>)
    ensures
        final(reader).data() == old(reader).data(),
        final(reader).pos() >= old(reader).pos(),
        pr(res, final(reader).pos()) == sp_soft_particle(old(reader).data(), old(reader).pos(), version),
{
    let far = if version >= 1603 {
        reader.read_f32()?
    } else {
        0
    };
    let near = if version >= 1604 {
        reader.read_f32()?
    } else {
        0
    };
    let offset = if version >= 1604 {
        reader.read_f32()?
    } else {
        0
    };
    Ok(SoftParticleParam { distance_far: far, distance_near: near, distance_near_offset: offset })
}

/// Renderer settings, alpha cutoff, falloff and soft particle, as read.
pub struct NodeLook {
    /// Renderer settings.
    pub renderer_common: crate::types::renderer_common::ParameterRendererCommon,
    /// Alpha cutoff.
    pub alpha_cutoff: crate::types::alpha_cutoff::AlphaCutoffParameter,
    /// Falloff.
    pub falloff: Option<FalloffParameter>,
    /// Soft particle.
    pub soft_particle: SoftParticleParam,
}

fn read_node_look(reader: &mut BinaryReader, version: i32, config: &ParseConfig) -> (res: Result<NodeLook, Error>)
    ensures
        final(reader).data() == old(reader).data(),
        final(reader).pos() >= old(reader).pos(),
        match (res, sp_node_look(old(reader).data(), old(reader).pos(), version, *config)) {
            (Ok(v), Ok((w, q))) => v.renderer_common@ == w.0 && v.alpha_cutoff@ == w.1 && v.falloff == w.2
                && v.soft_particle == w.3 && q == final(reader).pos(),
            (Err(e), Err(f)) => e == f,
            _ => false,
        },
{
    let renderer_common = parse_renderer_common(reader, version, config)?;
    let alpha_cutoff = parse_alpha_cutoff(reader, version, config)?;
    let falloff = read_node_falloff(reader, version, config)?;
    let soft_particle = read_soft_particle(reader, version)?;
    Ok(NodeLook { renderer_common, alpha_cutoff, falloff, soft_particle })
}

/// Renderer, sound and GPU particles, as read.
pub struct NodeOutput {
    /// Renderer.
    pub renderer: crate::types::renderer::RendererVariant,
    /// Sound.
    pub sound: ParameterSound,
    /// GPU particles.
    pub gpu_particles: Option<crate::types::gpu_particles::GpuParticlesParameter>,
}

fn read_node_output(reader: &mut BinaryReader, node_type: EffectNodeType, version: i32, config: &ParseConfig) -> (res: Result<NodeOutput, Error>)
    ensures
        final(reader).data() == old(reader).data(),
        final(reader).pos() >= old(reader).pos(),
        match (res, sp_node_output(old(reader).data(), old(reader).pos(), node_type, version, *config)) {
            (Ok(v), Ok((w, q))) => v.renderer@ == w.0 && v.sound == w.1 && q == final(reader).pos() && match (
                v.gpu_particles,
                w.2,
            ) {
                (Some(a), Some(b)) => a@ == b,
                (None, None) => true,
                _ => false,
            },
            (Err(e), Err(f)) => e == f,
            _ => false,
        },
{
    let renderer = parse_renderer(reader, node_type, version, config)?;
    let sound = parse_sound(reader, config)?;
    let gpu_particles = parse_gpu_particles(reader, version, config)?;
    Ok(NodeOutput { renderer, sound, gpu_particles })
}

/// Parse the parameters of a non-root node.
pub fn parse_node_params(reader: &mut BinaryReader, version: i32, config: &ParseConfig, node_type: EffectNodeType) -> (res: Result<NodeParams, Error>)
    ensures
        final(reader).data() == old(reader).data(),
        final(reader).pos() >= old(reader).pos(),
        prv(res, final(reader).pos()) == sp_node_params(old(reader).data(), old(reader).pos(), version, *config, node_type),
{
    proof {
        reveal(sp_node_params);
    }
    let head = read_node_head(reader, version, config)?;
    let motion = read_node_motion(reader, version, config)?;
    let place = read_node_place(reader, version, config)?;
    let look = read_node_look(reader, version, config)?;
    let out = read_node_output(reader, node_type, version, config)?;
    let custom_data1 = copy_custom_data(&look.renderer_common.custom_data1);
    let custom_data2 = copy_custom_data(&look.renderer_common.custom_data2);
    Ok(NodeParams {
        is_rendered: head.0,
        rendering_priority: head.1,
        common_values: head.2,
        steering_behavior: head.3,
        lods: head.4,
        translation: motion.translation,
        force_fields: motion.force_fields,
        rotation: motion.rotation,
        scaling: motion.scaling,
        spawn_location: place.0.1,
        spawn_effects_rotation: place.0.0,
        depth: place.1,
        kill_rules: place.2,
        collisions: place.3,
        renderer_common: look.renderer_common,
        alpha_cutoff: look.alpha_cutoff,
        falloff: look.falloff,
        soft_particle: look.soft_particle,
        renderer: out.renderer,
        sound: out.sound,
        gpu_particles: out.gpu_particles,
        custom_data1,
        custom_data2,
    })
}

// ---------------------------------------------------------------- the tree

/// The error for a node deeper than the limit (a depth beyond the `usize`
/// range is reported as `usize::MAX`).
pub open spec fn depth_error(depth: nat, cfg: ParseConfig) -> Error {
    Error::ResourceLimitExceeded {
        field: "node_depth",
        count: if depth <= usize::MAX { depth as usize } else { usize::MAX },
        max: cfg.limits.max_node_depth,
    }
}

/// The error for a node with more children than the limit.
pub open spec fn children_error(count: usize, cfg: ParseConfig) -> Error {
    Error::ResourceLimitExceeded { field: "node_children", count: count, max: cfg.limits.max_node_children }
}

/// The part of a node before its children: the kind, the parameters (none for
/// the root), and the child count (checked against the limit).
#[verifier::opaque]
pub open spec fn sp_node_own(d: Seq<u8>, p: int, version: i32, cfg: ParseConfig) -> PR<
    (EffectNodeType, Option<SpecNodeParams>, usize),
> {
    chain(sp_enum::<EffectNodeType>(d, p, cfg, "node_type"), |node_type: EffectNodeType, p: int|
    chain(
        if node_type == EffectNodeType::Root {
            Ok((None, p))
        } else {
            chain(sp_node_params(d, p, version, cfg, node_type), |np: SpecNodeParams, p: int| Ok((Some(np), p)))
        },
        |params: Option<SpecNodeParams>, p: int|
    chain(sp_i32(d, p), |raw: i32, p: int|
    if raw as usize > cfg.limits.max_node_children {
        Err(children_error(raw as usize, cfg))
    } else {
        Ok(((node_type, params, raw as usize), p))
    })))
}

/// How far a depth is from exceeding the limit.
pub open spec fn depth_room(depth: nat, cfg: ParseConfig) -> nat {
    if depth <= cfg.limits.max_node_depth + 1 {
        (cfg.limits.max_node_depth + 1 - depth) as nat
    } else {
        0
    }
}

/// A node at `depth` and its subtree: a node deeper than the limit is
/// rejected; otherwise its own part, then its children at the next depth.
pub open spec fn sp_node(d: Seq<u8>, p: int, version: i32, cfg: ParseConfig, depth: nat) -> PR<SpecEffectNode>
    decreases depth_room(depth, cfg), 0nat,
{
    if depth > cfg.limits.max_node_depth {
        Err(depth_error(depth, cfg))
    } else {
        match sp_node_own(d, p, version, cfg) {
            Err(e) => Err(e),
            Ok((own, q)) => match sp_children(d, q, version, cfg, depth + 1, own.2 as nat) {
                Err(e) => Err(e),
                Ok((children, q2)) => Ok((SpecEffectNode { node_type: own.0, children, params: own.1 }, q2)),
            },
        }
    }
}

/// `n` sibling nodes at `depth`, one after another.
pub open spec fn sp_children(d: Seq<u8>, p: int, version: i32, cfg: ParseConfig, depth: nat, n: nat) -> PR<Seq<SpecEffectNode>>
    decreases depth_room(depth, cfg), n,
{
    if n == 0 {
        Ok((Seq::empty(), p))
    } else {
        match sp_children(d, p, version, cfg, depth, (n - 1) as nat) {
            Err(e) => Err(e),
            Ok((xs, q)) => match sp_node(d, q, version, cfg, depth) {
                Err(e) => Err(e),
                Ok((x, q2)) => Ok((xs.push(x), q2)),
            },
        }
    }
}

/// Siblings deeper than the limit are rejected with the depth error.
proof fn lemma_children_too_deep(d: Seq<u8>, p: int, version: i32, cfg: ParseConfig, depth: nat, n: nat)
    requires
        depth > cfg.limits.max_node_depth,
        n > 0,
    ensures
        sp_children(d, p, version, cfg, depth, n) == Err::<(Seq<SpecEffectNode>, int), Error>(depth_error(depth, cfg)),
    decreases n,
{
    if n > 1 {
        lemma_children_too_deep(d, p, version, cfg, depth, (n - 1) as nat);
    } else {
        assert(sp_children(d, p, version, cfg, depth, 0) == Ok::<(Seq<SpecEffectNode>, int), Error>((Seq::empty(), p)));
        assert(sp_node(d, p, version, cfg, depth) == Err::<(SpecEffectNode, int), Error>(depth_error(depth, cfg)));
    }
}

/// Once reading a prefix of the siblings fails, reading all of them fails the same way.
proof fn lemma_children_err(d: Seq<u8>, p: int, version: i32, cfg: ParseConfig, depth: nat, i: nat, n: nat)
    requires
        i <= n,
        sp_children(d, p, version, cfg, depth, i) is Err,
    ensures
        sp_children(d, p, version, cfg, depth, n) == sp_children(d, p, version, cfg, depth, i),
    decreases n - i,
{
    if i < n {
        lemma_children_err(d, p, version, cfg, depth, i, (n - 1) as nat);
    }
}

/// The models of a vector of nodes.
pub open spec fn nodes_view(v: Seq<EffectNode>) -> Seq<SpecEffectNode> {
    v.map_values(|n: EffectNode| n@)
}

fn read_node_own(reader: &mut BinaryReader, version: i32, config: &ParseConfig) -> (res: Result<
    (EffectNodeType, Option<NodeParams>, usize),
    Error,
>)
    ensures
        final(reader).data() == old(reader).data(),
        res is Ok ==> final(reader).pos() >= old(reader).pos() + 8,
        final(reader).pos() >= old(reader).pos(),
        match (res, sp_node_own(old(reader).data(), old(reader).pos(), version, *config)) {
            (Ok(v), Ok((w, q))) => v.0 == w.0 && v.2 == w.2 && q == final(reader).pos() && match (v.1, w.1) {
                (Some(a), Some(b)) => a@ == b,
                (None, None) => true,
                _ => false,
            },
            (Err(e), Err(f)) => e == f,
            _ => false,
        },
{
    proof {
        reveal(sp_node_own);
    }
    let node_type: EffectNodeType = reader.read_enum(config, "node_type")?;
    let params = if node_type == EffectNodeType::Root {
        None
    } else {
        Some(parse_node_params(reader, version, config, node_type)?)
    };
    let raw = reader.read_i32()?;
    let child_count = #[verifier::truncate] (raw as usize);
    if child_count > config.limits.max_node_children {
        return Err(Error::ResourceLimitExceeded {
            field: "node_children",
            count: child_count,
            max: config.limits.max_node_children,
        });
    }
    Ok((node_type, params, child_count))
}

/// Parse a node and its subtree. `depth` is the node's depth (the root is at
/// `0`); a node deeper than the configured limit is rejected.
#[verifier::loop_isolation(false)]
pub fn parse_node(reader: &mut BinaryReader, version: i32, config: &ParseConfig, depth: usize) -> (res: Result<EffectNode, Error>)
    ensures
        final(reader).data() == old(reader).data(),
        final(reader).pos() >= old(reader).pos(),
        prv(res, final(reader).pos()) == sp_node(old(reader).data(), old(reader).pos(), version, *config, depth as nat),
    decreases depth_room(depth as nat, *config),
{
    let ghost d = reader.data();
    let ghost p0 = reader.pos();
    if depth > config.limits.max_node_depth {
        return Err(Error::ResourceLimitExceeded { field: "node_depth", count: depth, max: config.limits.max_node_depth });
    }
    let own = read_node_own(reader, version, config)?;
    let ghost q = reader.pos();
    let child_count = own.2;
    if depth == usize::MAX && child_count > 0 {
        // The children would sit one level below the deepest `usize` depth,
        // which no limit admits; the reported depth saturates.
        proof {
            lemma_children_too_deep(d, q, version, *config, depth as nat + 1, child_count as nat);
        }
        return Err(
            Error::ResourceLimitExceeded { field: "node_depth", count: usize::MAX, max: config.limits.max_node_depth },
        );
    }
    let child_depth: usize = if depth < usize::MAX {
        depth + 1
    } else {
        depth
    };
    let mut children: Vec<EffectNode> = Vec::new();
    proof {
        assert(nodes_view(children@) =~= Seq::<SpecEffectNode>::empty());
    }
    let mut i: usize = 0;
    while i < child_count
        invariant
            reader.data() == d,
            reader.pos() >= q,
            i <= child_count,
            child_count > 0 ==> child_depth == depth + 1,
            sp_children(d, q, version, *config, depth as nat + 1, i as nat) == Ok::<(Seq<SpecEffectNode>, int), Error>(
                (nodes_view(children@), reader.pos()),
            ),
        decreases child_count - i,
    {
        let child = match parse_node(reader, version, config, child_depth) {
            Ok(c) => c,
            Err(e) => {
                proof {
                    lemma_children_err(d, q, version, *config, depth as nat + 1, (i + 1) as nat, child_count as nat);
                }
                return Err(e);
            },
        };
        let ghost before = children@;
        children.push(child);
        proof {
            assert(nodes_view(children@) =~= nodes_view(before).push(child@));
        }
        i = i + 1;
    }
    let node = EffectNode { node_type: own.0, children, params: own.1 };
    proof {
        reveal_with_fuel(<EffectNode as View>::view, 2);
        assert(node@.children.len() == nodes_view(node.children@).len());
        assert forall|k: int| 0 <= k < node.children@.len() implies #[trigger] node@.children[k]
            == nodes_view(node.children@)[k] by {
            assert(node@.children[k] == node.children@[k]@);
        }
        assert(node@.children =~= nodes_view(node.children@));
    }
    Ok(node)
}

// ---------------------------------------------------------------- laws

/// Whether a node at `depth` and its subtree respect the configured limits: no
/// node deeper than the depth limit, none with more children than the
/// children limit.
pub open spec fn tree_within_limits(n: SpecEffectNode, depth: nat, cfg: ParseConfig) -> bool
    decreases n,
{
    &&& depth <= cfg.limits.max_node_depth
    &&& n.children.len() <= cfg.limits.max_node_children
    &&& forall|i: int| 0 <= i < n.children.len() ==> tree_within_limits(#[trigger] n.children[i], depth + 1, cfg)
}

/// The child count of a node's own part respects the children limit.
proof fn lemma_own_children_within(d: Seq<u8>, p: int, version: i32, cfg: ParseConfig)
    requires
        sp_node_own(d, p, version, cfg) is Ok,
    ensures
        sp_node_own(d, p, version, cfg)->Ok_0.0.2 <= cfg.limits.max_node_children,
{
    reveal(sp_node_own);
}

/// A node that parses respects the limits.
proof fn lemma_node_within(d: Seq<u8>, p: int, version: i32, cfg: ParseConfig, depth: nat)
    requires
        sp_node(d, p, version, cfg, depth) is Ok,
    ensures
        tree_within_limits(sp_node(d, p, version, cfg, depth)->Ok_0.0, depth, cfg),
    decreases depth_room(depth, cfg), 0nat,
{
    let (own, q) = sp_node_own(d, p, version, cfg)->Ok_0;
    lemma_own_children_within(d, p, version, cfg);
    lemma_children_within(d, q, version, cfg, depth + 1, own.2 as nat);
}

/// Siblings that parse respect the limits.
proof fn lemma_children_within(d: Seq<u8>, p: int, version: i32, cfg: ParseConfig, depth: nat, n: nat)
    requires
        sp_children(d, p, version, cfg, depth, n) is Ok,
    ensures
        sp_children(d, p, version, cfg, depth, n)->Ok_0.0.len() == n,
        forall|i: int| 0 <= i < n ==> tree_within_limits(#[trigger] sp_children(d, p, version, cfg, depth, n)->Ok_0.0[i], depth, cfg),
    decreases depth_room(depth, cfg), n,
{
    if n > 0 {
        lemma_children_within(d, p, version, cfg, depth, (n - 1) as nat);
        let (xs, q) = sp_children(d, p, version, cfg, depth, (n - 1) as nat)->Ok_0;
        lemma_node_within(d, q, version, cfg, depth);
    }
}

/// Law: a node tree that parses from depth `depth` respects the configured
/// limits on depth and on the number of children of each node.
pub proof fn lemma_parsed_tree_within_limits(d: Seq<u8>, p: int, version: i32, cfg: ParseConfig, depth: nat)
    requires
        sp_node(d, p, version, cfg, depth) is Ok,
    ensures
        tree_within_limits(sp_node(d, p, version, cfg, depth)->Ok_0.0, depth, cfg),
{
    lemma_node_within(d, p, version, cfg, depth);
}

} // verus!
