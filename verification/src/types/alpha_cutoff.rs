//! Alpha cutoff.

use vstd::prelude::*;

use super::fcurve::{FCurveScalar, SpecFCurveScalar};
use super::params::{ParameterEasingFloat, SpecParameterEasingFloat};
use super::primitives::{Color, RandomFloat, RandomInt};

verus! {

/// A value stored as an `f32` in newer files and as an `i32` in older ones.
#[derive(Clone, Copy, Debug, PartialEq, Eq, Structural)]
pub enum LegacyFloat {
    /// `f32` bits.
    Float(u32),
    /// An integer to be converted to `f32`.
    Integer(i32),
}

/// Kind-specific alpha cutoff data.
#[derive(Clone, Debug, PartialEq)]
pub enum AlphaCutoffVariant {
    /// A fixed threshold.
    Fixed {
        /// Equation.
        ref_eq: i32,
        /// Threshold.
        threshold: u32,
    },
    /// Four thresholds.
    FourPointInterpolation {
        /// Begin threshold.
        begin_threshold: RandomFloat,
        /// First transition length.
        transition_frame_num: RandomInt,
        /// Second threshold.
        no2_threshold: RandomFloat,
        /// Third threshold.
        no3_threshold: RandomFloat,
        /// Second transition length.
        transition_frame_num2: RandomInt,
        /// End threshold.
        end_threshold: RandomFloat,
    },
    /// An easing.
    Easing(Box<ParameterEasingFloat>),
    /// An F-curve.
    FCurve(Box<FCurveScalar>),
}

/// Model of [`AlphaCutoffVariant`].
pub enum SpecAlphaCutoffVariant {
    /// A fixed threshold.
    Fixed {
        /// Equation.
        ref_eq: i32,
        /// Threshold.
        threshold: u32,
    },
    /// Four thresholds.
    FourPointInterpolation {
        /// Begin threshold.
        begin_threshold: RandomFloat,
        /// First transition length.
        transition_frame_num: RandomInt,
        /// Second threshold.
        no2_threshold: RandomFloat,
        /// Third threshold.
        no3_threshold: RandomFloat,
        /// Second transition length.
        transition_frame_num2: RandomInt,
        /// End threshold.
        end_threshold: RandomFloat,
    },
    /// An easing.
    Easing(SpecParameterEasingFloat),
    /// An F-curve.
    FCurve(SpecFCurveScalar),
}

impl View for AlphaCutoffVariant {
    type V = SpecAlphaCutoffVariant;

    open spec fn view(&self) -> SpecAlphaCutoffVariant {
        match *self {
            AlphaCutoffVariant::Fixed { ref_eq, threshold } => SpecAlphaCutoffVariant::Fixed {
                ref_eq: ref_eq,
                threshold: threshold,
            },
            AlphaCutoffVariant::FourPointInterpolation { begin_threshold, transition_frame_num, no2_threshold, no3_threshold, transition_frame_num2, end_threshold } => SpecAlphaCutoffVariant::FourPointInterpolation {
                begin_threshold: begin_threshold,
                transition_frame_num: transition_frame_num,
                no2_threshold: no2_threshold,
                no3_threshold: no3_threshold,
                transition_frame_num2: transition_frame_num2,
                end_threshold: end_threshold,
            },
            AlphaCutoffVariant::Easing(v0) => SpecAlphaCutoffVariant::Easing(v0@),
            AlphaCutoffVariant::FCurve(v0) => SpecAlphaCutoffVariant::FCurve(v0@),
        }
    }
}

/// Alpha cutoff of a node.
#[derive(Clone, Debug, PartialEq)]
pub struct AlphaCutoffParameter {
    /// Cutoff data, if enabled and known.
    pub cutoff: Option<AlphaCutoffVariant>,
    /// Edge threshold.
    pub edge_threshold: u32,
    /// Edge color.
    pub edge_color: Color,
    /// Edge color scaling.
    pub edge_color_scaling: LegacyFloat,
}

/// Model of [`AlphaCutoffParameter`].
pub struct SpecAlphaCutoffParameter {
    /// Cutoff data, if enabled and known.
    pub cutoff: Option<SpecAlphaCutoffVariant>,
    /// Edge threshold.
    pub edge_threshold: u32,
    /// Edge color.
    pub edge_color: Color,
    /// Edge color scaling.
    pub edge_color_scaling: LegacyFloat,
}

impl View for AlphaCutoffParameter {
    type V = SpecAlphaCutoffParameter;

    open spec fn view(&self) -> SpecAlphaCutoffParameter {
        SpecAlphaCutoffParameter {
            cutoff: match self.cutoff { Some(x) => Some(x@), None => None },
            edge_threshold: self.edge_threshold,
            edge_color: self.edge_color,
            edge_color_scaling: self.edge_color_scaling,
        }
    }
}

} // verus!
