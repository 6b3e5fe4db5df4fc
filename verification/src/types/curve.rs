//! NURBS curve files.

use vstd::prelude::*;


verus! {

/// A homogeneous control point (`f64` bits).
#[derive(Clone, Copy, Debug, PartialEq, Eq, Structural)]
pub struct DVector4 {
    /// X.
    pub x: u64,
    /// Y.
    pub y: u64,
    /// Z.
    pub z: u64,
    /// Weight.
    pub w: u64,
}

/// A parsed NURBS curve file.
#[derive(Clone, Debug, PartialEq)]
pub struct NurbsCurve {
    /// Converter version.
    pub converter_version: i32,
    /// Control points.
    pub control_points: Vec<DVector4>,
    /// Knots (`f64` bits).
    pub knots: Vec<u64>,
    /// Order.
    pub order: i32,
    /// Step (`f64` bits).
    pub step: u64,
    /// Curve type.
    pub curve_type: i32,
    /// Dimension.
    pub dimension: i32,
}

/// Model of [`NurbsCurve`].
pub struct SpecNurbsCurve {
    /// Converter version.
    pub converter_version: i32,
    /// Control points.
    pub control_points: Seq<DVector4>,
    /// Knots (`f64` bits).
    pub knots: Seq<u64>,
    /// Order.
    pub order: i32,
    /// Step (`f64` bits).
    pub step: u64,
    /// Curve type.
    pub curve_type: i32,
    /// Dimension.
    pub dimension: i32,
}

impl View for NurbsCurve {
    type V = SpecNurbsCurve;

    open spec fn view(&self) -> SpecNurbsCurve {
        SpecNurbsCurve {
            converter_version: self.converter_version,
            control_points: self.control_points@,
            knots: self.knots@,
            order: self.order,
            step: self.step,
            curve_type: self.curve_type,
            dimension: self.dimension,
        }
    }
}

} // verus!
