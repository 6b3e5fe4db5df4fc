//! F-curves.

use vstd::prelude::*;

use super::enums::FCurveEdge;

verus! {

/// A pre-sampled animation curve.
#[derive(Clone, Debug, PartialEq)]
pub struct FCurve {
    /// Behaviour before the first sample.
    pub start_edge: FCurveEdge,
    /// Behaviour after the last sample.
    pub end_edge: FCurveEdge,
    /// Upper bound of the random offset (`f32` bits).
    pub offset_max: u32,
    /// Lower bound of the random offset (`f32` bits).
    pub offset_min: u32,
    /// Frame offset.
    pub offset: i32,
    /// Length in frames.
    pub len: i32,
    /// Frames per sample.
    pub freq: i32,
    /// Samples (`f32` bits).
    pub keys: Vec<u32>,
}

/// Model of [`FCurve`].
pub struct SpecFCurve {
    /// Behaviour before the first sample.
    pub start_edge: FCurveEdge,
    /// Behaviour after the last sample.
    pub end_edge: FCurveEdge,
    /// Upper bound of the random offset (`f32` bits).
    pub offset_max: u32,
    /// Lower bound of the random offset (`f32` bits).
    pub offset_min: u32,
    /// Frame offset.
    pub offset: i32,
    /// Length in frames.
    pub len: i32,
    /// Frames per sample.
    pub freq: i32,
    /// Samples (`f32` bits).
    pub keys: Seq<u32>,
}

impl View for FCurve {
    type V = SpecFCurve;

    open spec fn view(&self) -> SpecFCurve {
        SpecFCurve {
            start_edge: self.start_edge,
            end_edge: self.end_edge,
            offset_max: self.offset_max,
            offset_min: self.offset_min,
            offset: self.offset,
            len: self.len,
            freq: self.freq,
            keys: self.keys@,
        }
    }
}

/// A one-channel F-curve.
#[derive(Clone, Debug, PartialEq)]
pub struct FCurveScalar {
    /// Timeline mode.
    pub timeline: i32,
    /// The channel.
    pub s: FCurve,
}

/// Model of [`FCurveScalar`].
pub struct SpecFCurveScalar {
    /// Timeline mode.
    pub timeline: i32,
    /// The channel.
    pub s: SpecFCurve,
}

impl View for FCurveScalar {
    type V = SpecFCurveScalar;

    open spec fn view(&self) -> SpecFCurveScalar {
        SpecFCurveScalar {
            timeline: self.timeline,
            s: self.s@,
        }
    }
}

/// A two-channel F-curve.
#[derive(Clone, Debug, PartialEq)]
pub struct FCurveVector2D {
    /// Timeline mode.
    pub timeline: i32,
    /// X channel.
    pub x: FCurve,
    /// Y channel.
    pub y: FCurve,
}

/// Model of [`FCurveVector2D`].
pub struct SpecFCurveVector2D {
    /// Timeline mode.
    pub timeline: i32,
    /// X channel.
    pub x: SpecFCurve,
    /// Y channel.
    pub y: SpecFCurve,
}

impl View for FCurveVector2D {
    type V = SpecFCurveVector2D;

    open spec fn view(&self) -> SpecFCurveVector2D {
        SpecFCurveVector2D {
            timeline: self.timeline,
            x: self.x@,
            y: self.y@,
        }
    }
}

/// A three-channel F-curve.
#[derive(Clone, Debug, PartialEq)]
pub struct FCurveVector3D {
    /// Timeline mode.
    pub timeline: i32,
    /// X channel.
    pub x: FCurve,
    /// Y channel.
    pub y: FCurve,
    /// Z channel.
    pub z: FCurve,
}

/// Model of [`FCurveVector3D`].
pub struct SpecFCurveVector3D {
    /// Timeline mode.
    pub timeline: i32,
    /// X channel.
    pub x: SpecFCurve,
    /// Y channel.
    pub y: SpecFCurve,
    /// Z channel.
    pub z: SpecFCurve,
}

impl View for FCurveVector3D {
    type V = SpecFCurveVector3D;

    open spec fn view(&self) -> SpecFCurveVector3D {
        SpecFCurveVector3D {
            timeline: self.timeline,
            x: self.x@,
            y: self.y@,
            z: self.z@,
        }
    }
}

/// A four-channel (RGBA) F-curve.
#[derive(Clone, Debug, PartialEq)]
pub struct FCurveVectorColor {
    /// Timeline mode.
    pub timeline: i32,
    /// Red.
    pub r: FCurve,
    /// Green.
    pub g: FCurve,
    /// Blue.
    pub b: FCurve,
    /// Alpha.
    pub a: FCurve,
}

/// Model of [`FCurveVectorColor`].
pub struct SpecFCurveVectorColor {
    /// Timeline mode.
    pub timeline: i32,
    /// Red.
    pub r: SpecFCurve,
    /// Green.
    pub g: SpecFCurve,
    /// Blue.
    pub b: SpecFCurve,
    /// Alpha.
    pub a: SpecFCurve,
}

impl View for FCurveVectorColor {
    type V = SpecFCurveVectorColor;

    open spec fn view(&self) -> SpecFCurveVectorColor {
        SpecFCurveVectorColor {
            timeline: self.timeline,
            r: self.r@,
            g: self.g@,
            b: self.b@,
            a: self.a@,
        }
    }
}

} // verus!
