//! SKFE effect binary parser.

use vstd::prelude::*;

use crate::config::ParseConfig;
use crate::error::{Error, FourCC};
use crate::reader::{
    chain, le32, lemma_repeat_err, lemma_repeat_len, pr, prv, sp_bytes, sp_i32, sp_repeat, sp_u32, sp_utf16_string,
    sp_vector3d, u32_item, BinaryReader, IsUnknown, PR,
};
use crate::types::effect::{CullingInfo, Effect, SpecEffect};
use crate::types::enums::CullingShape;
use crate::types::node::SpecEffectNode;
use crate::types::primitives::Vector3D;
use crate::types::procedural_model::ProceduralModelParameter;
use crate::version::{is_supported_version, validate_version, VERSION_16_ALPHA8, VERSION_17_ALPHA3};

use super::efkefc::{fourcc_at, magic_skfe, spec_magic_skfe};
use super::node::{lemma_parsed_tree_within_limits, parse_node, sp_node, tree_within_limits};
use super::procedural_model::{parse_procedural_model, sp_procedural_model};

verus! {

// ---------------------------------------------------------------- resource tables

/// Reading one UTF-16 path, as an item of a repetition.
pub open spec fn path_item(d: Seq<u8>) -> spec_fn(int) -> PR<Seq<char>> {
    |p: int| sp_utf16_string(d, p)
}

/// The models of a vector of strings.
pub open spec fn strings_view(v: Seq<String>) -> Seq<Seq<char>> {
    v.map_values(|s: String| s@)
}

/// The error for a count above a limit.
pub open spec fn limit_error(field: &'static str, count: usize, max: usize) -> Error {
    Error::ResourceLimitExceeded { field: field, count: count, max: max }
}

/// A table of resource paths: a count (at most the configured number of
/// paths), then the UTF-16 paths.
pub open spec fn sp_resource_table(d: Seq<u8>, p: int, cfg: ParseConfig, field: &'static str) -> PR<Seq<Seq<char>>> {
    chain(sp_i32(d, p), |raw: i32, p: int|
    if raw as usize > cfg.limits.max_resource_paths {
        Err(limit_error(field, raw as usize, cfg.limits.max_resource_paths))
    } else {
        sp_repeat(raw as usize as nat, p, path_item(d))
    })
}

/// Read a table of resource paths.
#[verifier::loop_isolation(false)]
pub fn read_resource_table(reader: &mut BinaryReader, config: &ParseConfig, field_name: &'static str) -> (res: Result<Vec<String>, Error>)
    ensures
        final(reader).data() == old(reader).data(),
        final(reader).pos() >= old(reader).pos(),
        match (res, sp_resource_table(old(reader).data(), old(reader).pos(), *config, field_name)) {
            (Ok(v), Ok((w, q))) => strings_view(v@) == w && q == final(reader).pos(),
            (Err(e), Err(f)) => e == f,
            _ => false,
        },
{
    let ghost d = reader.data();
    let raw = reader.read_i32()?;
    let count = #[verifier::truncate] (raw as usize);
    if count > config.limits.max_resource_paths {
        return Err(Error::ResourceLimitExceeded { field: field_name, count, max: config.limits.max_resource_paths });
    }
    let ghost p = reader.pos();
    let mut paths: Vec<String> = Vec::new();
    proof {
        assert(strings_view(paths@) =~= Seq::<Seq<char>>::empty());
    }
    let mut i: usize = 0;
    while i < count
        invariant
            reader.data() == d,
            reader.pos() >= p,
            i <= count,
            sp_repeat(i as nat, p, path_item(d)) == Ok::<(Seq<Seq<char>>, int), Error>((strings_view(paths@), reader.pos())),
        decreases count - i,
    {
        let s = match reader.read_utf16_string() {
            Ok(s) => s,
            Err(e) => {
                proof {
                    lemma_repeat_err((i + 1) as nat, count as nat, p, path_item(d));
                }
                return Err(e);
            },
        };
        let ghost before = paths@;
        paths.push(s);
        proof {
            assert(strings_view(paths@) =~= strings_view(before).push(s@));
        }
        i = i + 1;
    }
    Ok(paths)
}

/// The resource tables of an effect.
pub struct EffectResources {
    /// Color textures.
    pub color_images: Vec<String>,
    /// Normal textures.
    pub normal_images: Vec<String>,
    /// Distortion textures.
    pub distortion_images: Vec<String>,
    /// Sounds.
    pub sounds: Vec<String>,
    /// Models.
    pub models: Vec<String>,
    /// Materials.
    pub materials: Vec<String>,
    /// Curves (from version 1.6 alpha 8).
    pub curves: Vec<String>,
}

/// Model of [`EffectResources`].
pub struct SpecEffectResources {
    /// Color textures.
    pub color_images: Seq<Seq<char>>,
    /// Normal textures.
    pub normal_images: Seq<Seq<char>>,
    /// Distortion textures.
    pub distortion_images: Seq<Seq<char>>,
    /// Sounds.
    pub sounds: Seq<Seq<char>>,
    /// Models.
    pub models: Seq<Seq<char>>,
    /// Materials.
    pub materials: Seq<Seq<char>>,
    /// Curves.
    pub curves: Seq<Seq<char>>,
}

impl View for EffectResources {
    type V = SpecEffectResources;

    open spec fn view(&self) -> SpecEffectResources {
        SpecEffectResources {
            color_images: strings_view(self.color_images@),
            normal_images: strings_view(self.normal_images@),
            distortion_images: strings_view(self.distortion_images@),
            sounds: strings_view(self.sounds@),
            models: strings_view(self.models@),
            materials: strings_view(self.materials@),
            curves: strings_view(self.curves@),
        }
    }
}

/// The curve table: from version 1.6 alpha 8, else empty.
pub open spec fn sp_curve_table(d: Seq<u8>, p: int, version: i32, cfg: ParseConfig) -> PR<Seq<Seq<char>>> {
    if version >= VERSION_16_ALPHA8 {
        sp_resource_table(d, p, cfg, "curves")
    } else {
        Ok((Seq::empty(), p))
    }
}

/// The first three tables: color, normal and distortion images.
pub open spec fn sp_image_tables(d: Seq<u8>, p: int, cfg: ParseConfig) -> PR<(Seq<Seq<char>>, Seq<Seq<char>>, Seq<Seq<char>>)> {
    chain(sp_resource_table(d, p, cfg, "color_images"), |a: Seq<Seq<char>>, p: int|
    chain(sp_resource_table(d, p, cfg, "normal_images"), |b: Seq<Seq<char>>, p: int|
    chain(sp_resource_table(d, p, cfg, "distortion_images"), |c: Seq<Seq<char>>, p: int|
    Ok(((a, b, c), p)))))
}

/// All resource tables.
pub open spec fn sp_resources(d: Seq<u8>, p: int, version: i32, cfg: ParseConfig) -> PR<SpecEffectResources> {
    chain(sp_image_tables(d, p, cfg), |img: (Seq<Seq<char>>, Seq<Seq<char>>, Seq<Seq<char>>), p: int|
    chain(sp_resource_table(d, p, cfg, "sounds"), |sounds: Seq<Seq<char>>, p: int|
    chain(sp_resource_table(d, p, cfg, "models"), |models: Seq<Seq<char>>, p: int|
    chain(sp_resource_table(d, p, cfg, "materials"), |materials: Seq<Seq<char>>, p: int|
    chain(sp_curve_table(d, p, version, cfg), |curves: Seq<Seq<char>>, p: int|
    Ok((SpecEffectResources {
        color_images: img.0,
        normal_images: img.1,
        distortion_images: img.2,
        sounds,
        models,
        materials,
        curves,
    }, p)))))))
}

fn read_image_tables(reader: &mut BinaryReader, config: &ParseConfig) -> (res: Result<(Vec<String>, Vec<String>, Vec<String>), Error>)
    ensures
        final(reader).data() == old(reader).data(),
        final(reader).pos() >= old(reader).pos(),
        match (res, sp_image_tables(old(reader).data(), old(reader).pos(), *config)) {
            (Ok(v), Ok((w, q))) => strings_view(v.0@) == w.0 && strings_view(v.1@) == w.1 && strings_view(v.2@)
                == w.2 && q == final(reader).pos(),
            (Err(e), Err(f)) => e == f,
            _ => false,
        },
{
    let a = read_resource_table(reader, config, "color_images")?;
    let b = read_resource_table(reader, config, "normal_images")?;
    let c = read_resource_table(reader, config, "distortion_images")?;
    Ok((a, b, c))
}

fn read_curve_table(reader: &mut BinaryReader, version: i32, config: &ParseConfig) -> (res: Result<Vec<String>, Error>)
    ensures
        final(reader).data() == old(reader).data(),
        final(reader).pos() >= old(reader).pos(),
        match (res, sp_curve_table(old(reader).data(), old(reader).pos(), version, *config)) {
            (Ok(v), Ok((w, q))) => strings_view(v@) == w && q == final(reader).pos(),
            (Err(e), Err(f)) => e == f,
            _ => false,
        },
{
    if version >= VERSION_16_ALPHA8 {
        read_resource_table(reader, config, "curves")
    } else {
        let v: Vec<String> = Vec::new();
        proof {
            assert(strings_view(v@) =~= Seq::<Seq<char>>::empty());
        }
        Ok(v)
    }
}

fn read_resources(reader: &mut BinaryReader, version: i32, config: &ParseConfig) -> (res: Result<EffectResources, Error>)
    ensures
        final(reader).data() == old(reader).data(),
        final(reader).pos() >= old(reader).pos(),
        prv(res, final(reader).pos()) == sp_resources(old(reader).data(), old(reader).pos(), version, *config),
{
    let img = read_image_tables(reader, config)?;
    let sounds = read_resource_table(reader, config, "sounds")?;
    let models = read_resource_table(reader, config, "models")?;
    let materials = read_resource_table(reader, config, "materials")?;
    let curves = read_curve_table(reader, version, config)?;
    Ok(EffectResources {
        color_images: img.0,
        normal_images: img.1,
        distortion_images: img.2,
        sounds,
        models,
        materials,
        curves,
    })
}

// ---------------------------------------------------------------- procedural models

/// Reading one procedural model, as an item of a repetition.
pub open spec fn procedural_model_item(d: Seq<u8>, version: i32, cfg: ParseConfig) -> spec_fn(int) -> PR<ProceduralModelParameter> {
    |p: int| sp_procedural_model(d, p, version, cfg)
}

/// The procedural models: from version 1.6 alpha 8 a count (at most the
/// configured number) and the models; else none.
pub open spec fn sp_procedural_models(d: Seq<u8>, p: int, version: i32, cfg: ParseConfig) -> PR<Seq<ProceduralModelParameter>> {
    if version >= VERSION_16_ALPHA8 {
        chain(sp_i32(d, p), |raw: i32, p: int|
        if raw as usize > cfg.limits.max_procedural_models {
            Err(limit_error("procedural_models", raw as usize, cfg.limits.max_procedural_models))
        } else {
            sp_repeat(raw as usize as nat, p, procedural_model_item(d, version, cfg))
        })
    } else {
        Ok((Seq::empty(), p))
    }
}

#[verifier::loop_isolation(false)]
#[verifier::spinoff_prover]
fn read_procedural_models(reader: &mut BinaryReader, version: i32, config: &ParseConfig) -> (res: Result<Vec<ProceduralModelParameter>, Error>)
    ensures
        final(reader).data() == old(reader).data(),
        final(reader).pos() >= old(reader).pos(),
        prv(res, final(reader).pos()) == sp_procedural_models(old(reader).data(), old(reader).pos(), version, *config),
{
    if version < VERSION_16_ALPHA8 {
        return Ok(Vec::new());
    }
    let ghost d = reader.data();
    let raw = reader.read_i32()?;
    let count = #[verifier::truncate] (raw as usize);
    if count > config.limits.max_procedural_models {
        return Err(Error::ResourceLimitExceeded {
            field: "procedural_models",
            count,
            max: config.limits.max_procedural_models,
        });
    }
    let ghost p = reader.pos();
    let mut models: Vec<ProceduralModelParameter> = Vec::new();
    let mut i: usize = 0;
    while i < count
        invariant
            reader.data() == d,
            reader.pos() >= p,
            i <= count,
            sp_repeat(i as nat, p, procedural_model_item(d, version, *config)) == Ok::<(Seq<ProceduralModelParameter>, int), Error>(
                (models@, reader.pos()),
            ),
        decreases count - i,
    {
        let m = match parse_procedural_model(reader, version, config) {
            Ok(m) => m,
            Err(e) => {
                proof {
                    lemma_repeat_err((i + 1) as nat, count as nat, p, procedural_model_item(d, version, *config));
                }
                return Err(e);
            },
        };
        models.push(m);
        i = i + 1;
    }
    Ok(models)
}

// ---------------------------------------------------------------- dynamic parameters

/// The dynamic inputs: a count (at most the configured number), then `f32` values.
pub open spec fn sp_dynamic_inputs(d: Seq<u8>, p: int, cfg: ParseConfig) -> PR<Seq<u32>> {
    chain(sp_i32(d, p), |raw: i32, p: int|
    if raw as usize > cfg.limits.max_dynamic_inputs {
        Err(limit_error("dynamic_inputs", raw as usize, cfg.limits.max_dynamic_inputs))
    } else {
        sp_repeat(raw as usize as nat, p, u32_item(d))
    })
}

/// One compiled equation: a byte size, then the bytes.
pub open spec fn sp_equation_blob(d: Seq<u8>, p: int) -> PR<Seq<u8>> {
    chain(sp_i32(d, p), |n: i32, p: int| sp_bytes(d, p, n as usize as int))
}

/// Reading one equation, as an item of a repetition.
pub open spec fn equation_item(d: Seq<u8>) -> spec_fn(int) -> PR<Seq<u8>> {
    |p: int| sp_equation_blob(d, p)
}

/// The models of a vector of byte vectors.
pub open spec fn blobs_view(v: Seq<Vec<u8>>) -> Seq<Seq<u8>> {
    v.map_values(|b: Vec<u8>| b@)
}

/// The dynamic equations: a count (at most the configured number), then the
/// compiled equations.
pub open spec fn sp_dynamic_equations(d: Seq<u8>, p: int, cfg: ParseConfig) -> PR<Seq<Seq<u8>>> {
    chain(sp_i32(d, p), |raw: i32, p: int|
    if raw as usize > cfg.limits.max_dynamic_equations {
        Err(limit_error("dynamic_equations", raw as usize, cfg.limits.max_dynamic_equations))
    } else {
        sp_repeat(raw as usize as nat, p, equation_item(d))
    })
}

fn read_dynamic_inputs(reader: &mut BinaryReader, config: &ParseConfig) -> (res: Result<Vec<u32>, Error>)
    ensures
        final(reader).data() == old(reader).data(),
        final(reader).pos() >= old(reader).pos(),
        prv(res, final(reader).pos()) == sp_dynamic_inputs(old(reader).data(), old(reader).pos(), *config),
{
    let raw = reader.read_i32()?;
    let count = #[verifier::truncate] (raw as usize);
    if count > config.limits.max_dynamic_inputs {
        return Err(Error::ResourceLimitExceeded {
            field: "dynamic_inputs",
            count,
            max: config.limits.max_dynamic_inputs,
        });
    }
    reader.read_u32_seq(count)
}

fn read_equation_blob(reader: &mut BinaryReader) -> (res: Result<Vec<u8>, Error>)
    ensures
        final(reader).data() == old(reader).data(),
        final(reader).pos() >= old(reader).pos(),
        prv(res, final(reader).pos()) == sp_equation_blob(old(reader).data(), old(reader).pos()),
{
    let n = #[verifier::truncate] (reader.read_i32()? as usize);
    let bytes = reader.read_bytes(n)?;
    Ok(vstd::slice::slice_to_vec(bytes))
}

#[verifier::loop_isolation(false)]
fn read_dynamic_equations(reader: &mut BinaryReader, config: &ParseConfig) -> (res: Result<Vec<Vec<u8>>, Error>)
    ensures
        final(reader).data() == old(reader).data(),
        final(reader).pos() >= old(reader).pos(),
        match (res, sp_dynamic_equations(old(reader).data(), old(reader).pos(), *config)) {
            (Ok(v), Ok((w, q))) => blobs_view(v@) == w && q == final(reader).pos(),
            (Err(e), Err(f)) => e == f,
            _ => false,
        },
{
    let ghost d = reader.data();
    let raw = reader.read_i32()?;
    let count = #[verifier::truncate] (raw as usize);
    if count > config.limits.max_dynamic_equations {
        return Err(Error::ResourceLimitExceeded {
            field: "dynamic_equations",
            count,
            max: config.limits.max_dynamic_equations,
        });
    }
    let ghost p = reader.pos();
    let mut blobs: Vec<Vec<u8>> = Vec::new();
    proof {
        assert(blobs_view(blobs@) =~= Seq::<Seq<u8>>::empty());
    }
    let mut i: usize = 0;
    while i < count
        invariant
            reader.data() == d,
            reader.pos() >= p,
            i <= count,
            sp_repeat(i as nat, p, equation_item(d)) == Ok::<(Seq<Seq<u8>>, int), Error>((blobs_view(blobs@), reader.pos())),
        decreases count - i,
    {
        let b = match read_equation_blob(reader) {
            Ok(b) => b,
            Err(e) => {
                proof {
                    lemma_repeat_err((i + 1) as nat, count as nat, p, equation_item(d));
                }
                return Err(e);
            },
        };
        let ghost before = blobs@;
        blobs.push(b);
        proof {
            assert(blobs_view(blobs@) =~= blobs_view(before).push(b@));
        }
        i = i + 1;
    }
    Ok(blobs)
}

// ---------------------------------------------------------------- global settings

/// The culling settings: a shape code; for a sphere, its radius and location.
pub open spec fn sp_culling(d: Seq<u8>, p: int) -> PR<Option<CullingInfo>> {
    chain(sp_i32(d, p), |raw: i32, p: int|
    if CullingShape::spec_from_code(raw) == CullingShape::Sphere {
        chain(sp_u32(d, p), |radius: u32, p: int|
        chain(sp_vector3d(d, p), |location: Vector3D, p: int|
        Ok((Some(CullingInfo { shape: CullingShape::Sphere, location, radius }), p))))
    } else {
        Ok((None, p))
    })
}

/// The level-of-detail distances (from version 1.7 alpha 3).
pub open spec fn sp_lod_distances(d: Seq<u8>, p: int, version: i32) -> PR<Option<Vector3D>> {
    if version >= VERSION_17_ALPHA3 {
        chain(sp_vector3d(d, p), |v: Vector3D, p: int| Ok((Some(v), p)))
    } else {
        Ok((None, p))
    }
}

/// Node count, threshold, magnification, seed, culling and LOD distances.
pub open spec fn sp_effect_settings(d: Seq<u8>, p: int, version: i32) -> PR<(i32, i32, u32, i32, Option<CullingInfo>, Option<Vector3D>)> {
    chain(sp_i32(d, p), |count: i32, p: int|
    chain(sp_i32(d, p), |threshold: i32, p: int|
    chain(sp_u32(d, p), |magnification: u32, p: int|
    chain(sp_i32(d, p), |seed: i32, p: int|
    chain(sp_culling(d, p), |culling: Option<CullingInfo>, p: int|
    chain(sp_lod_distances(d, p, version), |lod: Option<Vector3D>, p: int|
    Ok(((count, threshold, magnification, seed, culling, lod), p))))))))
}

fn read_culling(reader: &mut BinaryReader) -> (res: Result<Option<CullingInfo>, Error>)
    ensures
        final(reader).data() == old(reader).data(),
        final(reader).pos() >= old(reader).pos(),
        pr(res, final(reader).pos()) == sp_culling(old(reader).data(), old(reader).pos()),
{
    let raw = reader.read_i32()?;
    let shape = CullingShape::from_code(raw);
    if shape == CullingShape::Sphere {
        let radius = reader.read_f32()?;
        let location = reader.read_vector3d()?;
        Ok(Some(CullingInfo { shape: CullingShape::Sphere, location, radius }))
    } else {
        Ok(None)
    }
}

fn read_effect_settings(reader: &mut BinaryReader, version: i32) -> (res: Result<(i32, i32, u32, i32, Option<CullingInfo>, Option<Vector3D>), Error>)
    ensures
        final(reader).data() == old(reader).data(),
        final(reader).pos() >= old(reader).pos(),
        pr(res, final(reader).pos()) == sp_effect_settings(old(reader).data(), old(reader).pos(), version),
{
    let count = reader.read_i32()?;
    let threshold = reader.read_i32()?;
    let magnification = reader.read_f32()?;
    let seed = reader.read_i32()?;
    let culling = read_culling(reader)?;
    let lod = if version >= VERSION_17_ALPHA3 {
        Some(reader.read_vector3d()?)
    } else {
        None
    };
    Ok((count, threshold, magnification, seed, culling, lod))
}

// ---------------------------------------------------------------- the effect

/// The magic and version at the start of an effect binary: `"SKFE"`, then a
/// supported version.
pub open spec fn sp_effect_header(d: Seq<u8>) -> PR<i32> {
    if d.len() < 4 {
        Err(Error::UnexpectedEof { position: 0, expected_bytes: 4 })
    } else if fourcc_at(d, 0) != spec_magic_skfe() {
        Err(Error::InvalidMagic { expected: spec_magic_skfe(), got: fourcc_at(d, 0) })
    } else {
        chain(sp_i32(d, 4), |version: i32, p: int|
        if is_supported_version(version) {
            Ok((version, p))
        } else {
            Err(Error::UnsupportedVersion { version })
        })
    }
}

/// The body of an effect: tables, procedural models, dynamic parameters,
/// settings and the node tree (from its root at depth 0).
pub open spec fn sp_effect_body(d: Seq<u8>, p: int, version: i32, cfg: ParseConfig) -> PR<SpecEffect> {
    chain(sp_resources(d, p, version, cfg), |r: SpecEffectResources, p: int|
    chain(sp_procedural_models(d, p, version, cfg), |procedural_models: Seq<ProceduralModelParameter>, p: int|
    chain(sp_dynamic_inputs(d, p, cfg), |dynamic_inputs: Seq<u32>, p: int|
    chain(sp_dynamic_equations(d, p, cfg), |dynamic_equations: Seq<Seq<u8>>, p: int|
    chain(sp_effect_settings(d, p, version), |s: (i32, i32, u32, i32, Option<CullingInfo>, Option<Vector3D>), p: int|
    chain(sp_node(d, p, version, cfg, 0), |root: SpecEffectNode, p: int|
    Ok((SpecEffect {
        version,
        magnification: s.2,
        random_seed: s.3,
        culling: s.4,
        lod_distances: s.5,
        color_images: r.color_images,
        normal_images: r.normal_images,
        distortion_images: r.distortion_images,
        sounds: r.sounds,
        models: r.models,
        materials: r.materials,
        curves: r.curves,
        procedural_models,
        dynamic_inputs,
        dynamic_equations,
        rendering_node_count: s.0,
        rendering_threshold: s.1,
        root,
    }, p))))))))
}

/// The effect an SKFE binary holds (bytes after the node tree are ignored).
pub open spec fn spec_parse_effect(d: Seq<u8>, cfg: ParseConfig) -> Result<SpecEffect, Error> {
    match chain(sp_effect_header(d), |version: i32, p: int| sp_effect_body(d, p, version, cfg)) {
        Ok((e, _)) => Ok(e),
        Err(e) => Err(e),
    }
}

/// The model of an effect result.
pub open spec fn effect_result(res: Result<Effect, Error>) -> Result<SpecEffect, Error> {
    match res {
        Ok(e) => Ok(e@),
        Err(e) => Err(e),
    }
}

fn read_effect_header(reader: &mut BinaryReader) -> (res: Result<i32, Error>)
    requires
        old(reader).pos() == 0,
    ensures
        final(reader).data() == old(reader).data(),
        final(reader).pos() >= old(reader).pos(),
        pr(res, final(reader).pos()) == sp_effect_header(old(reader).data()),
{
    let magic = reader.read_bytes(4)?;
    let got = FourCC(magic[0], magic[1], magic[2], magic[3]);
    if got != magic_skfe() {
        return Err(Error::InvalidMagic { expected: magic_skfe(), got });
    }
    let version = reader.read_i32()?;
    validate_version(version)?;
    Ok(version)
}

/// Parse an SKFE effect binary.
pub fn parse_effect(data: &[u8], config: &ParseConfig) -> (res: Result<Effect, Error>)
    ensures
        effect_result(res) == spec_parse_effect(data@, *config),
{
    let mut reader = BinaryReader::new(data);
    let version = read_effect_header(&mut reader)?;
    let r = read_resources(&mut reader, version, config)?;
    let procedural_models = read_procedural_models(&mut reader, version, config)?;
    let dynamic_inputs = read_dynamic_inputs(&mut reader, config)?;
    let dynamic_equations = read_dynamic_equations(&mut reader, config)?;
    let s = read_effect_settings(&mut reader, version)?;
    let root = parse_node(&mut reader, version, config, 0)?;
    Ok(Effect {
        version,
        magnification: s.2,
        random_seed: s.3,
        culling: s.4,
        lod_distances: s.5,
        color_images: r.color_images,
        normal_images: r.normal_images,
        distortion_images: r.distortion_images,
        sounds: r.sounds,
        models: r.models,
        materials: r.materials,
        curves: r.curves,
        procedural_models,
        dynamic_inputs,
        dynamic_equations,
        rendering_node_count: s.0,
        rendering_threshold: s.1,
        root,
    })
}

// ---------------------------------------------------------------- laws

/// Law: the resource tables are read one after another in the file's order:
/// color images, normal images, distortion images, sounds, models, materials,
/// then (from version 1.6 alpha 8) curves; each field holds the table read in
/// its place.
pub proof fn lemma_resource_tables_in_order(d: Seq<u8>, p: int, version: i32, cfg: ParseConfig)
    requires
        sp_resources(d, p, version, cfg) is Ok,
    ensures
        ({
            let r = sp_resources(d, p, version, cfg)->Ok_0.0;
            let (a, p1) = sp_resource_table(d, p, cfg, "color_images")->Ok_0;
            let (b, p2) = sp_resource_table(d, p1, cfg, "normal_images")->Ok_0;
            let (c, p3) = sp_resource_table(d, p2, cfg, "distortion_images")->Ok_0;
            let (s, p4) = sp_resource_table(d, p3, cfg, "sounds")->Ok_0;
            let (m, p5) = sp_resource_table(d, p4, cfg, "models")->Ok_0;
            let (t, p6) = sp_resource_table(d, p5, cfg, "materials")->Ok_0;
            &&& r.color_images == a
            &&& r.normal_images == b
            &&& r.distortion_images == c
            &&& r.sounds == s
            &&& r.models == m
            &&& r.materials == t
            &&& r.curves == (if version >= VERSION_16_ALPHA8 {
                sp_resource_table(d, p6, cfg, "curves")->Ok_0.0
            } else {
                Seq::<Seq<char>>::empty()
            })
        }),
{
}

/// Law: an effect that parses holds, as its color, normal and distortion
/// images, the first three resource tables of the binary, which start right
/// after the 8-byte header.
pub proof fn lemma_parsed_effect_image_tables(d: Seq<u8>, cfg: ParseConfig)
    requires
        spec_parse_effect(d, cfg) is Ok,
    ensures
        ({
            let e = spec_parse_effect(d, cfg)->Ok_0;
            let (a, p1) = sp_resource_table(d, 8, cfg, "color_images")->Ok_0;
            let (b, p2) = sp_resource_table(d, p1, cfg, "normal_images")->Ok_0;
            let (c, p3) = sp_resource_table(d, p2, cfg, "distortion_images")->Ok_0;
            &&& e.color_images == a
            &&& e.normal_images == b
            &&& e.distortion_images == c
        }),
{
    let (version, p0) = sp_effect_header(d)->Ok_0;
    assert(p0 == 8);
    lemma_resource_tables_in_order(d, 8, version, cfg);
}

/// Law: an SKFE binary whose version lies outside the supported range is
/// rejected with `UnsupportedVersion` carrying that version, whatever follows
/// it and whatever the configuration.
pub proof fn lemma_unsupported_version_rejected(d: Seq<u8>, cfg: ParseConfig)
    requires
        d.len() >= 8,
        fourcc_at(d, 0) == spec_magic_skfe(),
        !is_supported_version(le32(d, 4) as i32),
    ensures
        spec_parse_effect(d, cfg) == Err::<SpecEffect, Error>(Error::UnsupportedVersion { version: le32(d, 4) as i32 }),
{
}

/// Law: every effect that parses carries a supported version, the one its
/// header declares.
pub proof fn lemma_parsed_version_supported(d: Seq<u8>, cfg: ParseConfig)
    requires
        spec_parse_effect(d, cfg) is Ok,
    ensures
        spec_parse_effect(d, cfg)->Ok_0.version == le32(d, 4) as i32,
        is_supported_version(spec_parse_effect(d, cfg)->Ok_0.version),
{
    let (version, p) = sp_effect_header(d)->Ok_0;
    assert(sp_effect_body(d, p, version, cfg) is Ok);
}

/// A resource table that parses holds at most the configured number of paths.
proof fn lemma_table_within_limit(d: Seq<u8>, p: int, cfg: ParseConfig, field: &'static str)
    requires
        sp_resource_table(d, p, cfg, field) is Ok,
    ensures
        sp_resource_table(d, p, cfg, field)->Ok_0.0.len() <= cfg.limits.max_resource_paths,
{
    let (raw, q) = sp_i32(d, p)->Ok_0;
    lemma_repeat_len(raw as usize as nat, q, path_item(d));
}

/// The resource tables that parse respect the configured limit.
proof fn lemma_resources_within_limit(d: Seq<u8>, p: int, version: i32, cfg: ParseConfig)
    requires
        sp_resources(d, p, version, cfg) is Ok,
    ensures
        ({
            let r = sp_resources(d, p, version, cfg)->Ok_0.0;
            &&& r.color_images.len() <= cfg.limits.max_resource_paths
            &&& r.normal_images.len() <= cfg.limits.max_resource_paths
            &&& r.distortion_images.len() <= cfg.limits.max_resource_paths
            &&& r.sounds.len() <= cfg.limits.max_resource_paths
            &&& r.models.len() <= cfg.limits.max_resource_paths
            &&& r.materials.len() <= cfg.limits.max_resource_paths
            &&& r.curves.len() <= cfg.limits.max_resource_paths
        }),
{
    let (a, p1) = sp_resource_table(d, p, cfg, "color_images")->Ok_0;
    lemma_table_within_limit(d, p, cfg, "color_images");
    let (b, p2) = sp_resource_table(d, p1, cfg, "normal_images")->Ok_0;
    lemma_table_within_limit(d, p1, cfg, "normal_images");
    let (c, p3) = sp_resource_table(d, p2, cfg, "distortion_images")->Ok_0;
    lemma_table_within_limit(d, p2, cfg, "distortion_images");
    let (s, p4) = sp_resource_table(d, p3, cfg, "sounds")->Ok_0;
    lemma_table_within_limit(d, p3, cfg, "sounds");
    let (m, p5) = sp_resource_table(d, p4, cfg, "models")->Ok_0;
    lemma_table_within_limit(d, p4, cfg, "models");
    let (t, p6) = sp_resource_table(d, p5, cfg, "materials")->Ok_0;
    lemma_table_within_limit(d, p5, cfg, "materials");
    if version >= VERSION_16_ALPHA8 {
        lemma_table_within_limit(d, p6, cfg, "curves");
    }
}

/// Law: an effect that parses respects the configured resource limits: each
/// resource table, the procedural models, the dynamic inputs and the dynamic
/// equations hold no more entries than the configuration allows, and its node
/// tree is no deeper, and no node in it has more children, than allowed.
pub proof fn lemma_parsed_effect_within_limits(d: Seq<u8>, cfg: ParseConfig)
    requires
        spec_parse_effect(d, cfg) is Ok,
    ensures
        ({
            let e = spec_parse_effect(d, cfg)->Ok_0;
            &&& e.color_images.len() <= cfg.limits.max_resource_paths
            &&& e.normal_images.len() <= cfg.limits.max_resource_paths
            &&& e.distortion_images.len() <= cfg.limits.max_resource_paths
            &&& e.sounds.len() <= cfg.limits.max_resource_paths
            &&& e.models.len() <= cfg.limits.max_resource_paths
            &&& e.materials.len() <= cfg.limits.max_resource_paths
            &&& e.curves.len() <= cfg.limits.max_resource_paths
            &&& e.procedural_models.len() <= cfg.limits.max_procedural_models
            &&& e.dynamic_inputs.len() <= cfg.limits.max_dynamic_inputs
            &&& e.dynamic_equations.len() <= cfg.limits.max_dynamic_equations
            &&& tree_within_limits(e.root, 0, cfg)
        }),
{
    let (version, p0) = sp_effect_header(d)->Ok_0;
    let (r, p1) = sp_resources(d, p0, version, cfg)->Ok_0;
    lemma_resources_within_limit(d, p0, version, cfg);
    let (pm, p2) = sp_procedural_models(d, p1, version, cfg)->Ok_0;
    if version >= VERSION_16_ALPHA8 {
        let (raw, q) = sp_i32(d, p1)->Ok_0;
        lemma_repeat_len(raw as usize as nat, q, procedural_model_item(d, version, cfg));
    }
    let (di, p3) = sp_dynamic_inputs(d, p2, cfg)->Ok_0;
    let (raw_i, qi) = sp_i32(d, p2)->Ok_0;
    lemma_repeat_len(raw_i as usize as nat, qi, u32_item(d));
    let (raw_e, qe) = sp_i32(d, p3)->Ok_0;
    lemma_repeat_len(raw_e as usize as nat, qe, equation_item(d));
    let (de, p4) = sp_dynamic_equations(d, p3, cfg)->Ok_0;
    let (st, p5) = sp_effect_settings(d, p4, version)->Ok_0;
    lemma_parsed_tree_within_limits(d, p5, version, cfg, 0);
}

} // verus!
