//! Color parameters.

use vstd::prelude::*;

use super::fcurve::{FCurveVectorColor, SpecFCurveVectorColor};
use super::gradient::{Gradient, SpecGradient};
use super::primitives::{Color, EasingColor, RandomColor};

verus! {

/// A color parameter of any kind.
#[derive(Clone, Debug, PartialEq)]
pub enum AllTypeColorParameter {
    /// A fixed color.
    Fixed {
        /// The color.
        all: Color,
    },
    /// A random color.
    Random {
        /// The range.
        all: RandomColor,
    },
    /// An easing.
    Easing(EasingColor),
    /// An F-curve.
    FCurveRgba(Box<FCurveVectorColor>),
    /// A gradient.
    Gradient(Box<Gradient>),
}

/// Model of [`AllTypeColorParameter`].
pub enum SpecAllTypeColorParameter {
    /// A fixed color.
    Fixed {
        /// The color.
        all: Color,
    },
    /// A random color.
    Random {
        /// The range.
        all: RandomColor,
    },
    /// An easing.
    Easing(EasingColor),
    /// An F-curve.
    FCurveRgba(SpecFCurveVectorColor),
    /// A gradient.
    Gradient(SpecGradient),
}

impl View for AllTypeColorParameter {
    type V = SpecAllTypeColorParameter;

    open spec fn view(&self) -> SpecAllTypeColorParameter {
        match *self {
            AllTypeColorParameter::Fixed { all } => SpecAllTypeColorParameter::Fixed {
                all: all,
            },
            AllTypeColorParameter::Random { all } => SpecAllTypeColorParameter::Random {
                all: all,
            },
            AllTypeColorParameter::Easing(v0) => SpecAllTypeColorParameter::Easing(v0),
            AllTypeColorParameter::FCurveRgba(v0) => SpecAllTypeColorParameter::FCurveRgba(v0@),
            AllTypeColorParameter::Gradient(v0) => SpecAllTypeColorParameter::Gradient(v0@),
        }
    }
}

} // verus!
