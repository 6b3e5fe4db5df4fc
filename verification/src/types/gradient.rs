//! Gradients.

use vstd::prelude::*;


verus! {

/// A color key of a gradient (`f32` bits).
#[derive(Clone, Copy, Debug, PartialEq, Eq, Structural)]
pub struct GradientColorKey {
    /// Position in `[0, 1]`.
    pub position: u32,
    /// Red.
    pub r: u32,
    /// Green.
    pub g: u32,
    /// Blue.
    pub b: u32,
    /// Intensity.
    pub intensity: u32,
}

/// An alpha key of a gradient (`f32` bits).
#[derive(Clone, Copy, Debug, PartialEq, Eq, Structural)]
pub struct GradientAlphaKey {
    /// Position in `[0, 1]`.
    pub position: u32,
    /// Alpha.
    pub alpha: u32,
}

/// A color gradient (at most 8 color and 8 alpha keys).
#[derive(Clone, Debug, PartialEq)]
pub struct Gradient {
    /// Color keys.
    pub colors: Vec<GradientColorKey>,
    /// Alpha keys.
    pub alphas: Vec<GradientAlphaKey>,
}

/// Model of [`Gradient`].
pub struct SpecGradient {
    /// Color keys.
    pub colors: Seq<GradientColorKey>,
    /// Alpha keys.
    pub alphas: Seq<GradientAlphaKey>,
}

impl View for Gradient {
    type V = SpecGradient;

    open spec fn view(&self) -> SpecGradient {
        SpecGradient {
            colors: self.colors@,
            alphas: self.alphas@,
        }
    }
}

} // verus!
