//! Sound parameters.

use vstd::prelude::*;

use super::enums::{ParameterSoundPanType, ParameterSoundType};
use super::primitives::{RandomFloat, RandomInt};

verus! {

/// A sound played by a node.
#[derive(Clone, Copy, Debug, PartialEq, Eq, Structural)]
pub struct SoundData {
    /// Sound index.
    pub wave_index: i32,
    /// Volume.
    pub volume: RandomFloat,
    /// Pitch.
    pub pitch: RandomFloat,
    /// Panning.
    pub pan_type: ParameterSoundPanType,
    /// Pan.
    pub pan: RandomFloat,
    /// Distance.
    pub distance: u32,
    /// Delay.
    pub delay: RandomInt,
}

/// Sound settings of a node.
#[derive(Clone, Copy, Debug, PartialEq, Eq, Structural)]
pub struct ParameterSound {
    /// Whether a sound is played.
    pub sound_type: ParameterSoundType,
    /// The sound.
    pub data: Option<SoundData>,
}

} // verus!
