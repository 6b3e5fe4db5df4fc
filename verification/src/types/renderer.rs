//! Kind-specific renderer parameters.

use vstd::prelude::*;

use super::color::{AllTypeColorParameter, SpecAllTypeColorParameter};
use super::enums::{BillboardType, CullingType, FalloffBlendType, ModelReferenceType, RenderingOrder, TextureUVType, TrailSmoothingType, TrailTimeType};
use super::params::{ParameterEasingFloat, SpecParameterEasingFloat};
use super::primitives::{Color, EasingVector2D, RandomVector2D, Vector2D};

verus! {

/// Texture mapping along a trail.
#[derive(Clone, Copy, Debug, PartialEq, Eq, Structural)]
pub struct NodeRendererTextureUVTypeParameter {
    /// Mapping.
    pub uv_type: TextureUVType,
    /// Tile length.
    pub tile_length: u32,
    /// Head edge.
    pub tile_edge_head: i32,
    /// Tail edge.
    pub tile_edge_tail: i32,
    /// Loop area begin.
    pub tile_loop_area_begin: u32,
    /// Loop area end.
    pub tile_loop_area_end: u32,
}

/// A scalar ring parameter.
#[derive(Clone, Debug, PartialEq)]
pub enum RingSingleParameter {
    /// Fixed.
    Fixed {
        /// Value.
        value: u32,
    },
    /// Random.
    Random {
        /// Upper bound.
        max: u32,
        /// Lower bound.
        min: u32,
    },
    /// Easing.
    Easing(Box<ParameterEasingFloat>),
}

/// Model of [`RingSingleParameter`].
pub enum SpecRingSingleParameter {
    /// Fixed.
    Fixed {
        /// Value.
        value: u32,
    },
    /// Random.
    Random {
        /// Upper bound.
        max: u32,
        /// Lower bound.
        min: u32,
    },
    /// Easing.
    Easing(SpecParameterEasingFloat),
}

impl View for RingSingleParameter {
    type V = SpecRingSingleParameter;

    open spec fn view(&self) -> SpecRingSingleParameter {
        match *self {
            RingSingleParameter::Fixed { value } => SpecRingSingleParameter::Fixed {
                value: value,
            },
            RingSingleParameter::Random { max, min } => SpecRingSingleParameter::Random {
                max: max,
                min: min,
            },
            RingSingleParameter::Easing(v0) => SpecRingSingleParameter::Easing(v0@),
        }
    }
}

/// A ring location parameter.
#[derive(Clone, Copy, Debug, PartialEq, Eq, Structural)]
pub enum RingLocationParameter {
    /// Fixed.
    Fixed {
        /// Location.
        location: Vector2D,
    },
    /// PVA.
    Pva {
        /// Location.
        location: RandomVector2D,
        /// Velocity.
        velocity: RandomVector2D,
        /// Acceleration.
        acceleration: RandomVector2D,
    },
    /// Easing.
    Easing(EasingVector2D),
}

/// A track size parameter.
#[derive(Clone, Copy, Debug, PartialEq, Eq, Structural)]
pub enum TrackSizeParameter {
    /// Fixed.
    Fixed {
        /// Size.
        size: u32,
    },
}

/// Per-corner sprite colors.
#[derive(Clone, Copy, Debug, PartialEq, Eq, Structural)]
pub enum SpriteColorParameter {
    /// White.
    Default,
    /// Fixed.
    Fixed {
        /// Lower left.
        ll: Color,
        /// Lower right.
        lr: Color,
        /// Upper left.
        ul: Color,
        /// Upper right.
        ur: Color,
    },
}

/// Per-corner sprite positions.
#[derive(Clone, Copy, Debug, PartialEq, Eq, Structural)]
pub enum SpritePositionParameter {
    /// Fixed.
    Fixed {
        /// Lower left.
        ll: Vector2D,
        /// Lower right.
        lr: Vector2D,
        /// Upper left.
        ul: Vector2D,
        /// Upper right.
        ur: Vector2D,
    },
}

/// Ribbon edge colors.
#[derive(Clone, Copy, Debug, PartialEq, Eq, Structural)]
pub enum RibbonColorParameter {
    /// White.
    Default,
    /// Fixed.
    Fixed {
        /// Left.
        l: Color,
        /// Right.
        r: Color,
    },
}

/// Ribbon edge positions.
#[derive(Clone, Copy, Debug, PartialEq, Eq, Structural)]
pub enum RibbonPositionParameter {
    /// Fixed.
    Fixed {
        /// Left.
        l: u32,
        /// Right.
        r: u32,
    },
}

/// Shape of a ring.
#[derive(Clone, Debug, PartialEq)]
pub enum RingShapeParameter {
    /// A full ring.
    Donut,
    /// A partial ring.
    Crescent {
        /// Start fade.
        starting_fade: u32,
        /// End fade.
        ending_fade: u32,
        /// Start angle.
        starting_angle: RingSingleParameter,
        /// End angle.
        ending_angle: RingSingleParameter,
    },
}

/// Model of [`RingShapeParameter`].
pub enum SpecRingShapeParameter {
    /// A full ring.
    Donut,
    /// A partial ring.
    Crescent {
        /// Start fade.
        starting_fade: u32,
        /// End fade.
        ending_fade: u32,
        /// Start angle.
        starting_angle: SpecRingSingleParameter,
        /// End angle.
        ending_angle: SpecRingSingleParameter,
    },
}

impl View for RingShapeParameter {
    type V = SpecRingShapeParameter;

    open spec fn view(&self) -> SpecRingShapeParameter {
        match *self {
            RingShapeParameter::Donut => SpecRingShapeParameter::Donut,
            RingShapeParameter::Crescent { starting_fade, ending_fade, starting_angle, ending_angle } => SpecRingShapeParameter::Crescent {
                starting_fade: starting_fade,
                ending_fade: ending_fade,
                starting_angle: starting_angle@,
                ending_angle: ending_angle@,
            },
        }
    }
}

/// Sprite renderer parameters.
#[derive(Clone, Debug, PartialEq)]
pub struct SpriteParams {
    /// Order.
    pub rendering_order: RenderingOrder,
    /// Billboard.
    pub billboard: BillboardType,
    /// Color.
    pub all_color: AllTypeColorParameter,
    /// Corner colors.
    pub sprite_color: SpriteColorParameter,
    /// Corner positions.
    pub sprite_position: SpritePositionParameter,
}

/// Model of [`SpriteParams`].
pub struct SpecSpriteParams {
    /// Order.
    pub rendering_order: RenderingOrder,
    /// Billboard.
    pub billboard: BillboardType,
    /// Color.
    pub all_color: SpecAllTypeColorParameter,
    /// Corner colors.
    pub sprite_color: SpriteColorParameter,
    /// Corner positions.
    pub sprite_position: SpritePositionParameter,
}

impl View for SpriteParams {
    type V = SpecSpriteParams;

    open spec fn view(&self) -> SpecSpriteParams {
        SpecSpriteParams {
            rendering_order: self.rendering_order,
            billboard: self.billboard,
            all_color: self.all_color@,
            sprite_color: self.sprite_color,
            sprite_position: self.sprite_position,
        }
    }
}

/// Ribbon renderer parameters.
#[derive(Clone, Debug, PartialEq)]
pub struct RibbonParams {
    /// Texture mapping.
    pub texture_uv_type: NodeRendererTextureUVTypeParameter,
    /// Time base (v1700+).
    pub trail_time_type: Option<TrailTimeType>,
    /// Faces the viewer.
    pub viewpoint_dependent: bool,
    /// Color.
    pub all_color: AllTypeColorParameter,
    /// Edge colors.
    pub ribbon_color: RibbonColorParameter,
    /// Edge positions.
    pub ribbon_position: RibbonPositionParameter,
    /// Spline divisions.
    pub spline_division: i32,
}

/// Model of [`RibbonParams`].
pub struct SpecRibbonParams {
    /// Texture mapping.
    pub texture_uv_type: NodeRendererTextureUVTypeParameter,
    /// Time base (v1700+).
    pub trail_time_type: Option<TrailTimeType>,
    /// Faces the viewer.
    pub viewpoint_dependent: bool,
    /// Color.
    pub all_color: SpecAllTypeColorParameter,
    /// Edge colors.
    pub ribbon_color: RibbonColorParameter,
    /// Edge positions.
    pub ribbon_position: RibbonPositionParameter,
    /// Spline divisions.
    pub spline_division: i32,
}

impl View for RibbonParams {
    type V = SpecRibbonParams;

    open spec fn view(&self) -> SpecRibbonParams {
        SpecRibbonParams {
            texture_uv_type: self.texture_uv_type,
            trail_time_type: self.trail_time_type,
            viewpoint_dependent: self.viewpoint_dependent,
            all_color: self.all_color@,
            ribbon_color: self.ribbon_color,
            ribbon_position: self.ribbon_position,
            spline_division: self.spline_division,
        }
    }
}

/// Ring renderer parameters.
#[derive(Clone, Debug, PartialEq)]
pub struct RingParams {
    /// Order.
    pub rendering_order: RenderingOrder,
    /// Billboard.
    pub billboard: BillboardType,
    /// Shape.
    pub shape: RingShapeParameter,
    /// Vertices.
    pub vertex_count: i32,
    /// Viewing angle (legacy).
    pub viewing_angle: RingSingleParameter,
    /// Outer location.
    pub outer_location: RingLocationParameter,
    /// Inner location.
    pub inner_location: RingLocationParameter,
    /// Center ratio.
    pub center_ratio: RingSingleParameter,
    /// Outer color.
    pub outer_color: AllTypeColorParameter,
    /// Center color.
    pub center_color: AllTypeColorParameter,
    /// Inner color.
    pub inner_color: AllTypeColorParameter,
}

/// Model of [`RingParams`].
pub struct SpecRingParams {
    /// Order.
    pub rendering_order: RenderingOrder,
    /// Billboard.
    pub billboard: BillboardType,
    /// Shape.
    pub shape: SpecRingShapeParameter,
    /// Vertices.
    pub vertex_count: i32,
    /// Viewing angle (legacy).
    pub viewing_angle: SpecRingSingleParameter,
    /// Outer location.
    pub outer_location: RingLocationParameter,
    /// Inner location.
    pub inner_location: RingLocationParameter,
    /// Center ratio.
    pub center_ratio: SpecRingSingleParameter,
    /// Outer color.
    pub outer_color: SpecAllTypeColorParameter,
    /// Center color.
    pub center_color: SpecAllTypeColorParameter,
    /// Inner color.
    pub inner_color: SpecAllTypeColorParameter,
}

impl View for RingParams {
    type V = SpecRingParams;

    open spec fn view(&self) -> SpecRingParams {
        SpecRingParams {
            rendering_order: self.rendering_order,
            billboard: self.billboard,
            shape: self.shape@,
            vertex_count: self.vertex_count,
            viewing_angle: self.viewing_angle@,
            outer_location: self.outer_location,
            inner_location: self.inner_location,
            center_ratio: self.center_ratio@,
            outer_color: self.outer_color@,
            center_color: self.center_color@,
            inner_color: self.inner_color@,
        }
    }
}

/// Fresnel-like falloff coloring.
#[derive(Clone, Copy, Debug, PartialEq, Eq, Structural)]
pub struct FalloffParameter {
    /// Blending.
    pub color_blend_type: FalloffBlendType,
    /// Begin color.
    pub begin_color: Color,
    /// End color.
    pub end_color: Color,
    /// Exponent.
    pub pow: u32,
}

/// Model renderer parameters.
#[derive(Clone, Debug, PartialEq)]
pub struct ModelParams {
    /// Model source.
    pub model_reference_type: ModelReferenceType,
    /// Model index (`-1` when not stored).
    pub model_index: i32,
    /// Billboard.
    pub billboard: BillboardType,
    /// Culling.
    pub culling: CullingType,
    /// Color.
    pub all_color: AllTypeColorParameter,
    /// Falloff (v1600..v1601).
    pub falloff: Option<FalloffParameter>,
}

/// Model of [`ModelParams`].
pub struct SpecModelParams {
    /// Model source.
    pub model_reference_type: ModelReferenceType,
    /// Model index (`-1` when not stored).
    pub model_index: i32,
    /// Billboard.
    pub billboard: BillboardType,
    /// Culling.
    pub culling: CullingType,
    /// Color.
    pub all_color: SpecAllTypeColorParameter,
    /// Falloff (v1600..v1601).
    pub falloff: Option<FalloffParameter>,
}

impl View for ModelParams {
    type V = SpecModelParams;

    open spec fn view(&self) -> SpecModelParams {
        SpecModelParams {
            model_reference_type: self.model_reference_type,
            model_index: self.model_index,
            billboard: self.billboard,
            culling: self.culling,
            all_color: self.all_color@,
            falloff: self.falloff,
        }
    }
}

/// Track renderer parameters.
#[derive(Clone, Debug, PartialEq)]
pub struct TrackParams {
    /// Texture mapping.
    pub texture_uv_type: NodeRendererTextureUVTypeParameter,
    /// Front size.
    pub track_size_for: TrackSizeParameter,
    /// Middle size.
    pub track_size_middle: TrackSizeParameter,
    /// Back size.
    pub track_size_back: TrackSizeParameter,
    /// Spline divisions.
    pub spline_division: i32,
    /// Smoothing (v1700+).
    pub smoothing: Option<TrailSmoothingType>,
    /// Time base (v1700+).
    pub trail_time_type: Option<TrailTimeType>,
    /// Left color.
    pub color_left: AllTypeColorParameter,
    /// Left middle color.
    pub color_left_middle: AllTypeColorParameter,
    /// Center color.
    pub color_center: AllTypeColorParameter,
    /// Center middle color.
    pub color_center_middle: AllTypeColorParameter,
    /// Right color.
    pub color_right: AllTypeColorParameter,
    /// Right middle color.
    pub color_right_middle: AllTypeColorParameter,
}

/// Model of [`TrackParams`].
pub struct SpecTrackParams {
    /// Texture mapping.
    pub texture_uv_type: NodeRendererTextureUVTypeParameter,
    /// Front size.
    pub track_size_for: TrackSizeParameter,
    /// Middle size.
    pub track_size_middle: TrackSizeParameter,
    /// Back size.
    pub track_size_back: TrackSizeParameter,
    /// Spline divisions.
    pub spline_division: i32,
    /// Smoothing (v1700+).
    pub smoothing: Option<TrailSmoothingType>,
    /// Time base (v1700+).
    pub trail_time_type: Option<TrailTimeType>,
    /// Left color.
    pub color_left: SpecAllTypeColorParameter,
    /// Left middle color.
    pub color_left_middle: SpecAllTypeColorParameter,
    /// Center color.
    pub color_center: SpecAllTypeColorParameter,
    /// Center middle color.
    pub color_center_middle: SpecAllTypeColorParameter,
    /// Right color.
    pub color_right: SpecAllTypeColorParameter,
    /// Right middle color.
    pub color_right_middle: SpecAllTypeColorParameter,
}

impl View for TrackParams {
    type V = SpecTrackParams;

    open spec fn view(&self) -> SpecTrackParams {
        SpecTrackParams {
            texture_uv_type: self.texture_uv_type,
            track_size_for: self.track_size_for,
            track_size_middle: self.track_size_middle,
            track_size_back: self.track_size_back,
            spline_division: self.spline_division,
            smoothing: self.smoothing,
            trail_time_type: self.trail_time_type,
            color_left: self.color_left@,
            color_left_middle: self.color_left_middle@,
            color_center: self.color_center@,
            color_center_middle: self.color_center_middle@,
            color_right: self.color_right@,
            color_right_middle: self.color_right_middle@,
        }
    }
}

/// Kind-specific renderer parameters.
#[derive(Clone, Debug, PartialEq)]
pub enum RendererVariant {
    /// No renderer.
    NoRenderer,
    /// Sprite.
    Sprite(SpriteParams),
    /// Ribbon.
    Ribbon(RibbonParams),
    /// Ring.
    Ring(RingParams),
    /// Model.
    Model(ModelParams),
    /// Track.
    Track(TrackParams),
}

/// Model of [`RendererVariant`].
pub enum SpecRendererVariant {
    /// No renderer.
    NoRenderer,
    /// Sprite.
    Sprite(SpecSpriteParams),
    /// Ribbon.
    Ribbon(SpecRibbonParams),
    /// Ring.
    Ring(SpecRingParams),
    /// Model.
    Model(SpecModelParams),
    /// Track.
    Track(SpecTrackParams),
}

impl View for RendererVariant {
    type V = SpecRendererVariant;

    open spec fn view(&self) -> SpecRendererVariant {
        match *self {
            RendererVariant::NoRenderer => SpecRendererVariant::NoRenderer,
            RendererVariant::Sprite(v0) => SpecRendererVariant::Sprite(v0@),
            RendererVariant::Ribbon(v0) => SpecRendererVariant::Ribbon(v0@),
            RendererVariant::Ring(v0) => SpecRendererVariant::Ring(v0@),
            RendererVariant::Model(v0) => SpecRendererVariant::Model(v0@),
            RendererVariant::Track(v0) => SpecRendererVariant::Track(v0@),
        }
    }
}

} // verus!
