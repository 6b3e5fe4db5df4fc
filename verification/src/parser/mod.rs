//! Binary deserialization for Effekseer file formats.

pub mod alpha_cutoff;
pub mod blocks;
pub mod collision;
pub mod color;
pub mod common_values;
pub mod curve;
pub mod depth;
pub mod easing;
pub mod effect;
pub mod efkefc;
pub mod efkpkg;
pub mod fcurve;
pub mod force_field;
pub mod gpu_particles;
pub mod gradient;
pub mod kill_rules;
pub mod material;
pub mod model;
pub mod node;
pub mod procedural_model;
pub mod renderer;
pub mod renderer_common;
pub mod rotation;
pub mod scaling;
pub mod sound;
pub mod spawn;
pub mod translation;
pub mod uv;

use vstd::prelude::*;

use crate::config::{spec_default_config, ParseConfig};
use crate::error::Error;
use crate::types::curve::{NurbsCurve, SpecNurbsCurve};
use crate::types::effect::{Effect, SpecEffect};
use crate::types::material::{MaterialFile, SpecMaterialFile};
use crate::types::model::{ModelFile, SpecModelFile};

use curve::{curve_result, parse_curve, spec_parse_curve};
use effect::{effect_result, parse_effect, spec_parse_effect};
use efkefc::{
    efke_container, extract_chunks, first_payload, fourcc_at, lemma_extract_stored_chunks, payloads_fit,
    spec_chunk_bin, spec_extract_chunks, spec_magic_efke, spec_magic_skfe,
};
use crate::error::FourCC;
use crate::reader::eof;
use material::{material_result, parse_material, spec_parse_material};
use model::{model_result, parse_model, spec_parse_model};

verus! {

/// The effect an `.efkefc` container (or a raw `.efk` binary) holds: the
/// effect binary that chunk extraction yields, parsed.
pub open spec fn spec_load_efkefc(d: Seq<u8>, cfg: ParseConfig) -> Result<SpecEffect, Error> {
    match spec_extract_chunks(d) {
        Ok((bin, _)) => spec_parse_effect(bin, cfg),
        Err(e) => Err(e),
    }
}

/// Law: a raw SKFE binary given to the container loader parses exactly as the
/// raw loader parses it, so `load_efkefc` and `load_efk` agree on it.
pub proof fn lemma_raw_binary_through_container(d: Seq<u8>, cfg: ParseConfig)
    requires
        d.len() >= 4,
        fourcc_at(d, 0) == spec_magic_skfe(),
    ensures
        spec_load_efkefc(d, cfg) == spec_parse_effect(d, cfg),
{
}

/// Law: a container built from chunks whose sizes fit loads as the payload of
/// its first `BIN_` chunk loads through the raw loader; without a `BIN_` chunk
/// it fails with `MissingChunk`.
pub proof fn lemma_container_loads_first_bin(version: u32, cs: Seq<(FourCC, Seq<u8>)>, cfg: ParseConfig)
    requires
        payloads_fit(cs),
    ensures
        spec_load_efkefc(efke_container(version, cs), cfg) == match first_payload(cs, spec_chunk_bin()) {
            Some(b) => spec_parse_effect(b, cfg),
            None => Err(Error::MissingChunk { chunk_id: spec_chunk_bin() }),
        },
{
    lemma_extract_stored_chunks(version, cs);
}

/// Law: input shorter than four bytes is rejected as truncated, and input
/// that starts with neither `"EFKE"` nor `"SKFE"` is rejected with
/// `InvalidMagic` naming the bytes found.
pub proof fn lemma_container_header_errors(d: Seq<u8>, cfg: ParseConfig)
    ensures
        d.len() < 4 ==> spec_load_efkefc(d, cfg) == Err::<SpecEffect, Error>(eof(0, 4)),
        d.len() >= 4 && fourcc_at(d, 0) != spec_magic_efke() && fourcc_at(d, 0) != spec_magic_skfe()
            ==> spec_load_efkefc(d, cfg) == Err::<SpecEffect, Error>(
            Error::InvalidMagic { expected: spec_magic_efke(), got: fourcc_at(d, 0) },
        ),
{
}

/// Parse an `.efkefc` container file (or raw `.efk`) using the default strict config.
///
/// The format is detected from the first 4 bytes: `"EFKE"` extracts the
/// `BIN_` chunk and parses it; `"SKFE"` parses the input directly.
pub fn load_efkefc(data: &[u8]) -> (res: Result<Effect, Error>)
    ensures
        effect_result(res) == spec_load_efkefc(data@, spec_default_config()),
{
    load_efkefc_with_config(data, &ParseConfig::default())
}

/// Parse an `.efkefc` container file (or raw `.efk`) with the given config.
pub fn load_efkefc_with_config(data: &[u8], config: &ParseConfig) -> (res: Result<Effect, Error>)
    ensures
        effect_result(res) == spec_load_efkefc(data@, *config),
{
    let chunks = extract_chunks(data)?;
    parse_effect(chunks.bin, config)
}

/// Parse a raw `.efk` (SKFE) binary using the default strict config.
pub fn load_efk(data: &[u8]) -> (res: Result<Effect, Error>)
    ensures
        effect_result(res) == spec_parse_effect(data@, spec_default_config()),
{
    load_efk_with_config(data, &ParseConfig::default())
}

/// Parse a raw `.efk` (SKFE) binary with the given config.
pub fn load_efk_with_config(data: &[u8], config: &ParseConfig) -> (res: Result<Effect, Error>)
    ensures
        effect_result(res) == spec_parse_effect(data@, *config),
{
    parse_effect(data, config)
}

/// Parse an `.efkmat` material file using the default strict config.
pub fn load_material(data: &[u8]) -> (res: Result<MaterialFile, Error>)
    ensures
        material_result(res) == spec_parse_material(data@, spec_default_config()),
{
    load_material_with_config(data, &ParseConfig::default())
}

/// Parse an `.efkmat` material file with the given config.
pub fn load_material_with_config(data: &[u8], config: &ParseConfig) -> (res: Result<MaterialFile, Error>)
    ensures
        material_result(res) == spec_parse_material(data@, *config),
{
    parse_material(data, config)
}

/// Parse an `.efkmodel` model file using the default strict config.
pub fn load_model(data: &[u8]) -> (res: Result<ModelFile, Error>)
    ensures
        model_result(res) == spec_parse_model(data@, spec_default_config()),
{
    load_model_with_config(data, &ParseConfig::default())
}

/// Parse an `.efkmodel` model file with the given config.
pub fn load_model_with_config(data: &[u8], config: &ParseConfig) -> (res: Result<ModelFile, Error>)
    ensures
        model_result(res) == spec_parse_model(data@, *config),
{
    parse_model(data, config)
}

/// Parse a NURBS curve file using the default strict config.
pub fn load_curve(data: &[u8]) -> (res: Result<NurbsCurve, Error>)
    ensures
        curve_result(res) == spec_parse_curve(data@, spec_default_config()),
{
    load_curve_with_config(data, &ParseConfig::default())
}

/// Parse a NURBS curve file with the given config.
pub fn load_curve_with_config(data: &[u8], config: &ParseConfig) -> (res: Result<NurbsCurve, Error>)
    ensures
        curve_result(res) == spec_parse_curve(data@, *config),
{
    parse_curve(data, config)
}

} // verus!
