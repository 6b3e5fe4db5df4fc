//! GPU particle parameters.

use vstd::prelude::*;

use super::enums::{AlphaBlendType, BindType, GpuColorParamType, GpuColorSpaceType, GpuEmitShape, GpuMaterialType, GpuRenderShape, GpuScaleType, TextureFilterType, TextureWrapType};
use super::fcurve::{FCurveVectorColor, SpecFCurveVectorColor};
use super::gradient::{Gradient, SpecGradient};
use super::primitives::{Color, ColorRange, Quad, Vector2D, Vector3D, Vector3DPair};

verus! {

/// Emission counts of GPU particles.
#[derive(Clone, Copy, Debug, PartialEq, Eq, Structural)]
pub struct GpuBasicParams {
    /// Total count.
    pub emit_count: i32,
    /// Count per frame.
    pub emit_per_frame: i32,
    /// Delay.
    pub emit_offset: u32,
    /// Life range.
    pub life_time: Vector2D,
}

/// Emitter shape data.
#[derive(Clone, Copy, Debug, PartialEq, Eq, Structural)]
pub enum GpuEmitShapeData {
    /// A point.
    Point,
    /// A line.
    Line {
        /// Start.
        start: Vector3D,
        /// End.
        end: Vector3D,
        /// Width.
        width: u32,
    },
    /// A circle.
    Circle {
        /// Axis.
        axis: Vector3D,
        /// Inner radius.
        inner: u32,
        /// Outer radius.
        outer: u32,
    },
    /// A sphere.
    Sphere {
        /// Radius.
        radius: u32,
    },
    /// A model.
    Model {
        /// Model index.
        index: i32,
        /// Size.
        size: u32,
    },
}

/// Emitter shape.
#[derive(Clone, Copy, Debug, PartialEq, Eq, Structural)]
pub struct GpuEmitShapeParams {
    /// Shape.
    pub shape_type: GpuEmitShape,
    /// Follows the node rotation.
    pub rotation_applied: bool,
    /// Shape data.
    pub data: GpuEmitShapeData,
}

/// Initial motion.
#[derive(Clone, Copy, Debug, PartialEq, Eq, Structural)]
pub struct GpuVelocityParams {
    /// Direction.
    pub direction: Vector3D,
    /// Spread.
    pub spread: u32,
    /// Speed range.
    pub initial_speed: Vector2D,
    /// Damping range.
    pub damping: Vector2D,
}

/// Rotation.
#[derive(Clone, Copy, Debug, PartialEq, Eq, Structural)]
pub struct GpuRotationParams {
    /// Offset range.
    pub offset: Vector3DPair,
    /// Velocity range.
    pub velocity: Vector3DPair,
}

/// A scale range.
#[derive(Clone, Copy, Debug, PartialEq, Eq, Structural)]
pub struct GpuScale4 {
    /// Uniform minimum.
    pub uniform_min: u32,
    /// Uniform maximum.
    pub uniform_max: u32,
    /// Per-axis minimum.
    pub axis_min: Vector3D,
    /// Per-axis maximum.
    pub axis_max: Vector3D,
}

/// Scale data.
#[derive(Clone, Copy, Debug, PartialEq, Eq, Structural)]
pub enum GpuScaleData {
    /// Fixed.
    Fixed {
        /// Scale.
        scale: GpuScale4,
    },
    /// Eased.
    Easing {
        /// Start.
        start: GpuScale4,
        /// End.
        end: GpuScale4,
        /// Easing speed.
        speed: Vector3D,
    },
}

/// Scale.
#[derive(Clone, Copy, Debug, PartialEq, Eq, Structural)]
pub struct GpuScaleParams {
    /// Kind.
    pub scale_type: GpuScaleType,
    /// Data.
    pub data: GpuScaleData,
}

/// Forces.
#[derive(Clone, Copy, Debug, PartialEq, Eq, Structural)]
pub struct GpuForceParams {
    /// Gravity.
    pub gravity: Vector3D,
    /// Vortex rotation.
    pub vortex_rotation: u32,
    /// Vortex attraction.
    pub vortex_attraction: u32,
    /// Vortex center.
    pub vortex_center: Vector3D,
    /// Vortex axis.
    pub vortex_axis: Vector3D,
    /// Turbulence power.
    pub turbulence_power: u32,
    /// Turbulence seed.
    pub turbulence_seed: i32,
    /// Turbulence scale.
    pub turbulence_scale: u32,
    /// Turbulence octaves.
    pub turbulence_octave: i32,
}

/// Blending and depth.
#[derive(Clone, Copy, Debug, PartialEq, Eq, Structural)]
pub struct GpuRenderBasicParams {
    /// Blending.
    pub blend_type: AlphaBlendType,
    /// Depth write.
    pub z_write: bool,
    /// Depth test.
    pub z_test: bool,
}

/// Drawn shape.
#[derive(Clone, Copy, Debug, PartialEq, Eq, Structural)]
pub struct GpuRenderShapeParams {
    /// Shape.
    pub shape_type: GpuRenderShape,
    /// Shape data.
    pub data: u32,
    /// Size.
    pub size: u32,
}

/// Color data.
#[derive(Clone, Debug, PartialEq)]
pub enum GpuColorData {
    /// Fixed.
    Fixed(Color),
    /// Random between two colors.
    Random(Color, Color),
    /// Eased.
    Easing {
        /// Start range.
        start: ColorRange,
        /// End range.
        end: ColorRange,
        /// Easing speed.
        speed: Vector3D,
    },
    /// F-curve.
    FCurve(Box<FCurveVectorColor>),
    /// Gradient.
    Gradient(Gradient),
}

/// Model of [`GpuColorData`].
pub enum SpecGpuColorData {
    /// Fixed.
    Fixed(Color),
    /// Random between two colors.
    Random(Color, Color),
    /// Eased.
    Easing {
        /// Start range.
        start: ColorRange,
        /// End range.
        end: ColorRange,
        /// Easing speed.
        speed: Vector3D,
    },
    /// F-curve.
    FCurve(SpecFCurveVectorColor),
    /// Gradient.
    Gradient(SpecGradient),
}

impl View for GpuColorData {
    type V = SpecGpuColorData;

    open spec fn view(&self) -> SpecGpuColorData {
        match *self {
            GpuColorData::Fixed(v0) => SpecGpuColorData::Fixed(v0),
            GpuColorData::Random(v0, v1) => SpecGpuColorData::Random(v0, v1),
            GpuColorData::Easing { start, end, speed } => SpecGpuColorData::Easing {
                start: start,
                end: end,
                speed: speed,
            },
            GpuColorData::FCurve(v0) => SpecGpuColorData::FCurve(v0@),
            GpuColorData::Gradient(v0) => SpecGpuColorData::Gradient(v0@),
        }
    }
}

/// Color.
#[derive(Clone, Debug, PartialEq)]
pub struct GpuRenderColorParams {
    /// Inheritance.
    pub color_inherit: BindType,
    /// Kind.
    pub color_all_type: GpuColorParamType,
    /// Color space.
    pub color_space: GpuColorSpaceType,
    /// Data.
    pub data: GpuColorData,
    /// Emissive.
    pub emissive: u32,
    /// Fade-in.
    pub fade_in: u32,
    /// Fade-out.
    pub fade_out: u32,
}

/// Model of [`GpuRenderColorParams`].
pub struct SpecGpuRenderColorParams {
    /// Inheritance.
    pub color_inherit: BindType,
    /// Kind.
    pub color_all_type: GpuColorParamType,
    /// Color space.
    pub color_space: GpuColorSpaceType,
    /// Data.
    pub data: SpecGpuColorData,
    /// Emissive.
    pub emissive: u32,
    /// Fade-in.
    pub fade_in: u32,
    /// Fade-out.
    pub fade_out: u32,
}

impl View for GpuRenderColorParams {
    type V = SpecGpuRenderColorParams;

    open spec fn view(&self) -> SpecGpuRenderColorParams {
        SpecGpuRenderColorParams {
            color_inherit: self.color_inherit,
            color_all_type: self.color_all_type,
            color_space: self.color_space,
            data: self.data@,
            emissive: self.emissive,
            fade_in: self.fade_in,
            fade_out: self.fade_out,
        }
    }
}

/// Material.
#[derive(Clone, Copy, Debug, PartialEq, Eq, Structural)]
pub struct GpuRenderMaterialParams {
    /// Material.
    pub material: GpuMaterialType,
    /// Textures.
    pub texture_indexes: Quad<u32>,
    /// Filters.
    pub texture_filters: Quad<TextureFilterType>,
    /// Wraps.
    pub texture_wraps: Quad<TextureWrapType>,
}

/// GPU particle settings (v1800+).
#[derive(Clone, Debug, PartialEq)]
pub struct GpuParticlesParameter {
    /// Emission.
    pub basic: GpuBasicParams,
    /// Emitter.
    pub emit_shape: GpuEmitShapeParams,
    /// Motion.
    pub velocity: GpuVelocityParams,
    /// Rotation.
    pub rotation: GpuRotationParams,
    /// Scale.
    pub scale: GpuScaleParams,
    /// Forces.
    pub force: GpuForceParams,
    /// Blending.
    pub render_basic: GpuRenderBasicParams,
    /// Shape.
    pub render_shape: GpuRenderShapeParams,
    /// Color.
    pub render_color: GpuRenderColorParams,
    /// Material.
    pub render_material: GpuRenderMaterialParams,
}

/// Model of [`GpuParticlesParameter`].
pub struct SpecGpuParticlesParameter {
    /// Emission.
    pub basic: GpuBasicParams,
    /// Emitter.
    pub emit_shape: GpuEmitShapeParams,
    /// Motion.
    pub velocity: GpuVelocityParams,
    /// Rotation.
    pub rotation: GpuRotationParams,
    /// Scale.
    pub scale: GpuScaleParams,
    /// Forces.
    pub force: GpuForceParams,
    /// Blending.
    pub render_basic: GpuRenderBasicParams,
    /// Shape.
    pub render_shape: GpuRenderShapeParams,
    /// Color.
    pub render_color: SpecGpuRenderColorParams,
    /// Material.
    pub render_material: GpuRenderMaterialParams,
}

impl View for GpuParticlesParameter {
    type V = SpecGpuParticlesParameter;

    open spec fn view(&self) -> SpecGpuParticlesParameter {
        SpecGpuParticlesParameter {
            basic: self.basic,
            emit_shape: self.emit_shape,
            velocity: self.velocity,
            rotation: self.rotation,
            scale: self.scale,
            force: self.force,
            render_basic: self.render_basic,
            render_shape: self.render_shape,
            render_color: self.render_color@,
            render_material: self.render_material,
        }
    }
}

} // verus!
