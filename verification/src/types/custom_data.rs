//! Custom data.

use vstd::prelude::*;

use super::fcurve::{FCurveVector2D, FCurveVectorColor, SpecFCurveVector2D, SpecFCurveVectorColor};
use super::primitives::{EasingVector2D, RandomVector2D, Vector2D, Vector4D};

verus! {

/// Custom data passed to materials.
#[derive(Clone, Debug, PartialEq)]
pub enum ParameterCustomData {
    /// None.
    NoData,
    /// A fixed 2D value.
    Fixed2D(Vector2D),
    /// A random 2D value.
    Random2D(RandomVector2D),
    /// A 2D easing.
    Easing2D(EasingVector2D),
    /// A 2D F-curve.
    FCurve2D(Box<FCurveVector2D>),
    /// A fixed 4D value.
    Fixed4D(Vector4D),
    /// A color F-curve.
    FCurveColor(Box<FCurveVectorColor>),
    /// Taken from the dynamic inputs.
    DynamicInput,
}

/// Model of [`ParameterCustomData`].
pub enum SpecParameterCustomData {
    /// None.
    NoData,
    /// A fixed 2D value.
    Fixed2D(Vector2D),
    /// A random 2D value.
    Random2D(RandomVector2D),
    /// A 2D easing.
    Easing2D(EasingVector2D),
    /// A 2D F-curve.
    FCurve2D(SpecFCurveVector2D),
    /// A fixed 4D value.
    Fixed4D(Vector4D),
    /// A color F-curve.
    FCurveColor(SpecFCurveVectorColor),
    /// Taken from the dynamic inputs.
    DynamicInput,
}

impl View for ParameterCustomData {
    type V = SpecParameterCustomData;

    open spec fn view(&self) -> SpecParameterCustomData {
        match *self {
            ParameterCustomData::NoData => SpecParameterCustomData::NoData,
            ParameterCustomData::Fixed2D(v0) => SpecParameterCustomData::Fixed2D(v0),
            ParameterCustomData::Random2D(v0) => SpecParameterCustomData::Random2D(v0),
            ParameterCustomData::Easing2D(v0) => SpecParameterCustomData::Easing2D(v0),
            ParameterCustomData::FCurve2D(v0) => SpecParameterCustomData::FCurve2D(v0@),
            ParameterCustomData::Fixed4D(v0) => SpecParameterCustomData::Fixed4D(v0),
            ParameterCustomData::FCurveColor(v0) => SpecParameterCustomData::FCurveColor(v0@),
            ParameterCustomData::DynamicInput => SpecParameterCustomData::DynamicInput,
        }
    }
}

} // verus!
