//! Sound parameter parser.

use vstd::prelude::*;

use crate::config::ParseConfig;
use crate::error::Error;
use crate::reader::{chain, pr, sp_enum, sp_i32, sp_random_float, sp_random_int, sp_u32, BinaryReader, PR};
use crate::types::enums::{ParameterSoundPanType, ParameterSoundType};
use crate::types::primitives::{RandomFloat, RandomInt};
use crate::types::sound::{ParameterSound, SoundData};

verus! {

/// The data of a sound that is used.
pub open spec fn sp_sound_data(d: Seq<u8>, p: int, cfg: ParseConfig) -> PR<SoundData> {
    chain(sp_i32(d, p), |wave_index: i32, p: int|
    chain(sp_random_float(d, p), |volume: RandomFloat, p: int|
    chain(sp_random_float(d, p), |pitch: RandomFloat, p: int|
    chain(sp_enum::<ParameterSoundPanType>(d, p, cfg, "Sound.pan_type"), |pan_type: ParameterSoundPanType, p: int|
    chain(sp_random_float(d, p), |pan: RandomFloat, p: int|
    chain(sp_u32(d, p), |distance: u32, p: int|
    chain(sp_random_int(d, p), |delay: RandomInt, p: int|
    Ok((SoundData { wave_index, volume, pitch, pan_type, pan, distance, delay }, p)))))))))
}

/// A sound parameter: the kind, then the data when the kind is `Use`.
pub open spec fn sp_sound(d: Seq<u8>, p: int, cfg: ParseConfig) -> PR<ParameterSound> {
    chain(sp_enum::<ParameterSoundType>(d, p, cfg, "Sound.type"), |sound_type: ParameterSoundType, p: int|
    if sound_type == ParameterSoundType::Use {
        chain(sp_sound_data(d, p, cfg), |data: SoundData, p: int| Ok((ParameterSound { sound_type, data: Some(data) }, p)))
    } else {
        Ok((ParameterSound { sound_type, data: None }, p))
    })
}

fn parse_sound_data(reader: &mut BinaryReader, config: &ParseConfig) -> (res: Result<SoundData, Error>)
    ensures
        final(reader).data() == old(reader).data(),
        final(reader).pos() >= old(reader).pos(),
        pr(res, final(reader).pos()) == sp_sound_data(old(reader).data(), old(reader).pos(), *config),
{
    let wave_index = reader.read_i32()?;
    let volume = reader.read_random_float()?;
    let pitch = reader.read_random_float()?;
    let pan_type: ParameterSoundPanType = reader.read_enum(config, "Sound.pan_type")?;
    let pan = reader.read_random_float()?;
    let distance = reader.read_f32()?;
    let delay = reader.read_random_int()?;
    Ok(SoundData { wave_index, volume, pitch, pan_type, pan, distance, delay })
}

/// Parse the sound parameter of a node.
pub fn parse_sound(reader: &mut BinaryReader, config: &ParseConfig) -> (res: Result<ParameterSound, Error>)
    ensures
        final(reader).data() == old(reader).data(),
        final(reader).pos() >= old(reader).pos(),
        pr(res, final(reader).pos()) == sp_sound(old(reader).data(), old(reader).pos(), *config),
{
    let sound_type: ParameterSoundType = reader.read_enum(config, "Sound.type")?;
    if sound_type == ParameterSoundType::Use {
        let data = parse_sound_data(reader, config)?;
        Ok(ParameterSound { sound_type, data: Some(data) })
    } else {
        Ok(ParameterSound { sound_type, data: None })
    }
}

} // verus!
