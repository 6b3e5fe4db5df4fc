//! Primitive value types read from Effekseer binaries.
//!
//! Floating-point fields are kept as their IEEE-754 bit patterns (`u32` for
//! `f32`, `u64` for `f64`), exactly as they appear in the file; convert them
//! with `f32::from_bits` / `f64::from_bits`.

use vstd::prelude::*;

use super::enums::{ColorMode, TriggerType};

verus! {

/// A 2D vector of `f32` bit patterns.
#[derive(Clone, Copy, Debug, PartialEq, Eq, Structural)]
pub struct Vector2D {
    /// X component.
    pub x: u32,
    /// Y component.
    pub y: u32,
}

/// A 3D vector of `f32` bit patterns.
#[derive(Clone, Copy, Debug, PartialEq, Eq, Structural)]
pub struct Vector3D {
    /// X component.
    pub x: u32,
    /// Y component.
    pub y: u32,
    /// Z component.
    pub z: u32,
}

/// Four `f32` bit patterns.
#[derive(Clone, Copy, Debug, PartialEq, Eq, Structural)]
pub struct Vector4D {
    /// First component.
    pub x: u32,
    /// Second component.
    pub y: u32,
    /// Third component.
    pub z: u32,
    /// Fourth component.
    pub w: u32,
}

/// Two 3D vectors stored back to back.
#[derive(Clone, Copy, Debug, PartialEq, Eq, Structural)]
pub struct Vector3DPair {
    /// The first vector.
    pub first: Vector3D,
    /// The second vector.
    pub second: Vector3D,
}

/// A rectangle of `f32` bit patterns.
#[derive(Clone, Copy, Debug, PartialEq, Eq, Structural)]
pub struct Rectf {
    /// Left.
    pub x: u32,
    /// Top.
    pub y: u32,
    /// Width.
    pub w: u32,
    /// Height.
    pub h: u32,
}

/// An 8-bit RGBA color.
#[derive(Clone, Copy, Debug, PartialEq, Eq, Structural)]
pub struct Color {
    /// Red.
    pub r: u8,
    /// Green.
    pub g: u8,
    /// Blue.
    pub b: u8,
    /// Alpha.
    pub a: u8,
}

/// Two colors, the lower and upper end of a range.
#[derive(Clone, Copy, Debug, PartialEq, Eq, Structural)]
pub struct ColorRange {
    /// Lower end.
    pub min: Color,
    /// Upper end.
    pub max: Color,
}

/// Four unsigned integers.
#[derive(Clone, Copy, Debug, PartialEq, Eq, Structural)]
pub struct Quad<T> {
    /// First.
    pub v0: T,
    /// Second.
    pub v1: T,
    /// Third.
    pub v2: T,
    /// Fourth.
    pub v3: T,
}

/// A random `f32` range (bit patterns).
#[derive(Clone, Copy, Debug, PartialEq, Eq, Structural)]
pub struct RandomFloat {
    /// Upper bound.
    pub max: u32,
    /// Lower bound.
    pub min: u32,
}

/// A random integer range.
#[derive(Clone, Copy, Debug, PartialEq, Eq, Structural)]
pub struct RandomInt {
    /// Upper bound.
    pub max: i32,
    /// Lower bound.
    pub min: i32,
}

/// A random 2D vector range.
#[derive(Clone, Copy, Debug, PartialEq, Eq, Structural)]
pub struct RandomVector2D {
    /// Upper bound.
    pub max: Vector2D,
    /// Lower bound.
    pub min: Vector2D,
}

/// A random 3D vector range.
#[derive(Clone, Copy, Debug, PartialEq, Eq, Structural)]
pub struct RandomVector3D {
    /// Upper bound.
    pub max: Vector3D,
    /// Lower bound.
    pub min: Vector3D,
}

/// A random color range.
#[derive(Clone, Copy, Debug, PartialEq, Eq, Structural)]
pub struct RandomColor {
    /// How the range is interpreted.
    pub mode: ColorMode,
    /// Upper bound.
    pub max: Color,
    /// Lower bound.
    pub min: Color,
}

/// References to dynamic equations for a maximum and a minimum (`-1` = none).
#[derive(Clone, Copy, Debug, PartialEq, Eq, Structural)]
pub struct RefMinMax {
    /// Equation for the upper bound.
    pub max: i32,
    /// Equation for the lower bound.
    pub min: i32,
}

/// The reference pair that refers to no equation.
pub open spec fn spec_no_ref() -> RefMinMax {
    RefMinMax { max: -1i32, min: -1i32 }
}

/// The reference pair that refers to no equation.
pub fn no_ref() -> (r: RefMinMax)
    ensures
        r == spec_no_ref(),
{
    RefMinMax { max: -1, min: -1 }
}

/// A trigger: its source and index.
#[derive(Clone, Copy, Debug, PartialEq, Eq, Structural)]
pub struct TriggerValues {
    /// Trigger source.
    pub type_: TriggerType,
    /// Trigger index.
    pub index: u8,
}

/// Cubic easing coefficients without randomness (`f32` bit patterns).
#[derive(Clone, Copy, Debug, PartialEq, Eq, Structural)]
pub struct EasingFloatWithoutRandom {
    /// Cubic coefficient.
    pub a: u32,
    /// Quadratic coefficient.
    pub b: u32,
    /// Linear coefficient.
    pub c: u32,
}

/// A random float easing.
#[derive(Clone, Copy, Debug, PartialEq, Eq, Structural)]
pub struct EasingFloat {
    /// Start range.
    pub start: RandomFloat,
    /// End range.
    pub end: RandomFloat,
    /// Cubic coefficient.
    pub a: u32,
    /// Quadratic coefficient.
    pub b: u32,
    /// Linear coefficient.
    pub c: u32,
}

/// A random 2D vector easing.
#[derive(Clone, Copy, Debug, PartialEq, Eq, Structural)]
pub struct EasingVector2D {
    /// Start range.
    pub start: RandomVector2D,
    /// End range.
    pub end: RandomVector2D,
    /// Cubic coefficient.
    pub a: u32,
    /// Quadratic coefficient.
    pub b: u32,
    /// Linear coefficient.
    pub c: u32,
}

/// A random 3D vector easing.
#[derive(Clone, Copy, Debug, PartialEq, Eq, Structural)]
pub struct EasingVector3D {
    /// Start range.
    pub start: RandomVector3D,
    /// End range.
    pub end: RandomVector3D,
    /// Cubic coefficient.
    pub a: u32,
    /// Quadratic coefficient.
    pub b: u32,
    /// Linear coefficient.
    pub c: u32,
}

/// A random color easing.
#[derive(Clone, Copy, Debug, PartialEq, Eq, Structural)]
pub struct EasingColor {
    /// Start range.
    pub start: RandomColor,
    /// End range.
    pub end: RandomColor,
    /// Cubic coefficient.
    pub a: u32,
    /// Quadratic coefficient.
    pub b: u32,
    /// Linear coefficient.
    pub c: u32,
}

} // verus!
