//! UV parameters.

use vstd::prelude::*;

use super::enums::{UVAnimationInterpolationType, UVAnimationLoopType};
use super::fcurve::{FCurveVector2D, SpecFCurveVector2D};
use super::primitives::{RandomInt, RandomVector2D, Rectf};

verus! {

/// UV animation of one texture slot.
#[derive(Clone, Debug, PartialEq)]
pub enum UVParameter {
    /// The whole texture.
    Default,
    /// A fixed rectangle.
    Fixed {
        /// UV rectangle.
        position: Rectf,
    },
    /// A frame animation.
    Animation {
        /// First frame.
        position: Rectf,
        /// Frame length.
        frame_length: i32,
        /// Frames per row.
        frame_count_x: i32,
        /// Rows.
        frame_count_y: i32,
        /// Loop mode.
        loop_type: UVAnimationLoopType,
        /// Start frame.
        start_frame: RandomInt,
        /// Interpolation (slot 0, v1600+).
        interpolation_type: Option<UVAnimationInterpolationType>,
    },
    /// Scrolling.
    Scroll {
        /// Start position.
        position: RandomVector2D,
        /// Size.
        size: RandomVector2D,
        /// Speed.
        speed: RandomVector2D,
    },
    /// F-curves.
    FCurve {
        /// Position curve.
        position: Box<FCurveVector2D>,
        /// Size curve.
        size: Box<FCurveVector2D>,
    },
}

/// Model of [`UVParameter`].
pub enum SpecUVParameter {
    /// The whole texture.
    Default,
    /// A fixed rectangle.
    Fixed {
        /// UV rectangle.
        position: Rectf,
    },
    /// A frame animation.
    Animation {
        /// First frame.
        position: Rectf,
        /// Frame length.
        frame_length: i32,
        /// Frames per row.
        frame_count_x: i32,
        /// Rows.
        frame_count_y: i32,
        /// Loop mode.
        loop_type: UVAnimationLoopType,
        /// Start frame.
        start_frame: RandomInt,
        /// Interpolation (slot 0, v1600+).
        interpolation_type: Option<UVAnimationInterpolationType>,
    },
    /// Scrolling.
    Scroll {
        /// Start position.
        position: RandomVector2D,
        /// Size.
        size: RandomVector2D,
        /// Speed.
        speed: RandomVector2D,
    },
    /// F-curves.
    FCurve {
        /// Position curve.
        position: SpecFCurveVector2D,
        /// Size curve.
        size: SpecFCurveVector2D,
    },
}

impl View for UVParameter {
    type V = SpecUVParameter;

    open spec fn view(&self) -> SpecUVParameter {
        match *self {
            UVParameter::Default => SpecUVParameter::Default,
            UVParameter::Fixed { position } => SpecUVParameter::Fixed {
                position: position,
            },
            UVParameter::Animation { position, frame_length, frame_count_x, frame_count_y, loop_type, start_frame, interpolation_type } => SpecUVParameter::Animation {
                position: position,
                frame_length: frame_length,
                frame_count_x: frame_count_x,
                frame_count_y: frame_count_y,
                loop_type: loop_type,
                start_frame: start_frame,
                interpolation_type: interpolation_type,
            },
            UVParameter::Scroll { position, size, speed } => SpecUVParameter::Scroll {
                position: position,
                size: size,
                speed: speed,
            },
            UVParameter::FCurve { position, size } => SpecUVParameter::FCurve {
                position: position@,
                size: size@,
            },
        }
    }
}

} // verus!
