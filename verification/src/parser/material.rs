//! `.efkmat` material file parser.

use vstd::prelude::*;

use crate::config::ParseConfig;
use crate::error::{ChunkProblem, Error, FourCC};
use crate::reader::{
    chain, eof, enum_item, le32, lemma_repeat_err, pr, prv, sp_ascii_string, sp_bool, sp_bytes,
    sp_enum, sp_i32, sp_repeat, sp_u32, BinaryReader, PR,
};
use crate::types::enums::{MaterialRequiredMethod, MaterialUniformType, ShadingModelType, TextureColorType, TextureWrapType};
use crate::types::gradient::SpecGradient;
use crate::types::material::{
    MaterialFile, MaterialGradient, MaterialTexture, MaterialUniform, SpecMaterialFile,
    SpecMaterialGradient, SpecMaterialTexture, SpecMaterialUniform,
};
use crate::types::primitives::Vector4D;
use crate::version::{
    is_supported_material_version, MATERIAL_VERSION_15, MATERIAL_VERSION_16, MATERIAL_VERSION_17,
    MATERIAL_VERSION_17_ALPHA2, MATERIAL_VERSION_17_ALPHA4, MATERIAL_VERSION_18,
};

use super::efkefc::{fourcc, fourcc_at};
use super::gradient::{parse_gradient, sp_gradient};
use super::renderer_common::{sp_vector4d};

verus! {

broadcast use BinaryReader::lemma_pos_nonneg;

// ---------------------------------------------------------------- outside text decoding

/// What `String::from_utf8_lossy` makes of some bytes.
pub uninterp spec fn utf8_lossy(bytes: Seq<u8>) -> Seq<char>;

/// `String::from_utf8_lossy`: the text of the bytes, with each invalid
/// sequence replaced by U+FFFD. Stated: the result is [`utf8_lossy`] of the
/// bytes, and for valid UTF-8 it is the decoding of the bytes; how invalid
/// sequences are replaced is not stated.
#[verifier::external_body]
fn string_from_utf8_lossy(bytes: &[u8]) -> (s: String)
    ensures
        s@ == utf8_lossy(bytes@),
        vstd::utf8::valid_utf8(bytes@) ==> s@ == vstd::utf8::decode_utf8(bytes@),
{
    String::from_utf8_lossy(bytes).into_owned()
}

// ---------------------------------------------------------------- identifiers

/// Magic of a material file, `"EFKM"`.
pub open spec fn spec_magic_efkm() -> FourCC {
    FourCC(0x45, 0x46, 0x4B, 0x4D)
}

/// Id of the parameter chunk, `"PRM_"`.
pub open spec fn spec_chunk_prm() -> FourCC {
    FourCC(0x50, 0x52, 0x4D, 0x5F)
}

/// Id of the generated code chunk, `"GENE"`.
pub open spec fn spec_chunk_gene() -> FourCC {
    FourCC(0x47, 0x45, 0x4E, 0x45)
}

fn magic_efkm() -> (f: FourCC)
    ensures
        f == spec_magic_efkm(),
{
    FourCC(0x45, 0x46, 0x4B, 0x4D)
}

fn chunk_prm() -> (f: FourCC)
    ensures
        f == spec_chunk_prm(),
{
    FourCC(0x50, 0x52, 0x4D, 0x5F)
}

fn chunk_gene() -> (f: FourCC)
    ensures
        f == spec_chunk_gene(),
{
    FourCC(0x47, 0x45, 0x4E, 0x45)
}

// ---------------------------------------------------------------- items

/// An optional uniform name (present from material version 3).
pub open spec fn sp_uniform_name(d: Seq<u8>, p: int, version: i32) -> PR<Option<Seq<char>>> {
    if version >= MATERIAL_VERSION_15 {
        chain(sp_ascii_string(d, p), |s: Seq<char>, p: int| Ok((Some(s), p)))
    } else {
        Ok((None, p))
    }
}

/// A texture slot: name, uniform name, default path (not kept), index,
/// priority, parameter, color type, sampler.
pub open spec fn sp_material_texture(d: Seq<u8>, p: int, version: i32, cfg: ParseConfig) -> PR<SpecMaterialTexture> {
    chain(sp_ascii_string(d, p), |name: Seq<char>, p: int|
    chain(sp_uniform_name(d, p, version), |uniform_name: Option<Seq<char>>, p: int|
    chain(sp_ascii_string(d, p), |_default_path: Seq<char>, p: int|
    chain(sp_i32(d, p), |index: i32, p: int|
    chain(sp_i32(d, p), |priority: i32, p: int|
    chain(sp_i32(d, p), |param: i32, p: int|
    chain(sp_enum::<TextureColorType>(d, p, cfg, "MaterialTexture.color_type"), |color_type: TextureColorType, p: int|
    chain(sp_enum::<TextureWrapType>(d, p, cfg, "MaterialTexture.sampler"), |sampler: TextureWrapType, p: int|
    Ok((SpecMaterialTexture { name, uniform_name, index, priority, param, color_type, sampler }, p))))))))))
}

/// A uniform: name, uniform name, offset, priority, value type, defaults.
pub open spec fn sp_material_uniform(d: Seq<u8>, p: int, version: i32, cfg: ParseConfig) -> PR<SpecMaterialUniform> {
    chain(sp_ascii_string(d, p), |name: Seq<char>, p: int|
    chain(sp_uniform_name(d, p, version), |uniform_name: Option<Seq<char>>, p: int|
    chain(sp_i32(d, p), |offset: i32, p: int|
    chain(sp_i32(d, p), |priority: i32, p: int|
    chain(sp_enum::<MaterialUniformType>(d, p, cfg, "MaterialUniform.value_type"), |value_type: MaterialUniformType, p: int|
    chain(sp_vector4d(d, p), |default_values: Vector4D, p: int|
    Ok((SpecMaterialUniform { name, uniform_name, offset, priority, value_type, default_values }, p))))))))
}

/// A gradient uniform: name, uniform name, offset and priority (not kept), gradient.
pub open spec fn sp_material_gradient(d: Seq<u8>, p: int) -> PR<SpecMaterialGradient> {
    chain(sp_ascii_string(d, p), |name: Seq<char>, p: int|
    chain(sp_ascii_string(d, p), |uniform_name: Seq<char>, p: int|
    chain(sp_i32(d, p), |_offset: i32, p: int|
    chain(sp_i32(d, p), |_priority: i32, p: int|
    chain(sp_gradient(d, p), |gradient: SpecGradient, p: int|
    Ok((SpecMaterialGradient { name, uniform_name: Some(uniform_name), gradient }, p)))))))
}

/// Reading one texture slot, as an item of a repetition.
pub open spec fn texture_item(d: Seq<u8>, version: i32, cfg: ParseConfig) -> spec_fn(int) -> PR<SpecMaterialTexture> {
    |p: int| sp_material_texture(d, p, version, cfg)
}

/// Reading one uniform, as an item of a repetition.
pub open spec fn uniform_item(d: Seq<u8>, version: i32, cfg: ParseConfig) -> spec_fn(int) -> PR<SpecMaterialUniform> {
    |p: int| sp_material_uniform(d, p, version, cfg)
}

/// Reading one gradient uniform, as an item of a repetition.
pub open spec fn material_gradient_item(d: Seq<u8>) -> spec_fn(int) -> PR<SpecMaterialGradient> {
    |p: int| sp_material_gradient(d, p)
}

/// A counted list: an `i32` count, then the items.
pub open spec fn sp_counted<T>(d: Seq<u8>, p: int, item: spec_fn(int) -> PR<T>) -> PR<Seq<T>> {
    chain(sp_i32(d, p), |n: i32, p: int| sp_repeat(n as usize as nat, p, item))
}

/// The models of texture slots.
pub open spec fn textures_view(v: Seq<MaterialTexture>) -> Seq<SpecMaterialTexture> {
    v.map_values(|t: MaterialTexture| t@)
}

/// The models of uniforms.
pub open spec fn uniforms_view(v: Seq<MaterialUniform>) -> Seq<SpecMaterialUniform> {
    v.map_values(|u: MaterialUniform| u@)
}

/// The models of gradient uniforms.
pub open spec fn material_gradients_view(v: Seq<MaterialGradient>) -> Seq<SpecMaterialGradient> {
    v.map_values(|g: MaterialGradient| g@)
}

fn read_uniform_name(reader: &mut BinaryReader, version: i32) -> (res: Result<Option<String>, Error>)
    ensures
        final(reader).data() == old(reader).data(),
        final(reader).pos() >= old(reader).pos(),
        match (res, sp_uniform_name(old(reader).data(), old(reader).pos(), version)) {
            (Ok(Some(s)), Ok((Some(t), q))) => s@ == t && q == final(reader).pos(),
            (Ok(None), Ok((None, q))) => q == final(reader).pos(),
            (Err(e), Err(f)) => e == f,
            _ => false,
        },
{
    if version >= MATERIAL_VERSION_15 {
        let s = reader.read_ascii_string()?;
        Ok(Some(s))
    } else {
        Ok(None)
    }
}

fn read_material_texture(reader: &mut BinaryReader, version: i32, config: &ParseConfig) -> (res: Result<MaterialTexture, Error>)
    ensures
        final(reader).data() == old(reader).data(),
        final(reader).pos() >= old(reader).pos(),
        prv(res, final(reader).pos()) == sp_material_texture(old(reader).data(), old(reader).pos(), version, *config),
{
    let name = reader.read_ascii_string()?;
    let uniform_name = read_uniform_name(reader, version)?;
    let _default_path = reader.read_ascii_string()?;
    let index = reader.read_i32()?;
    let priority = reader.read_i32()?;
    let param = reader.read_i32()?;
    let color_type: TextureColorType = reader.read_enum(config, "MaterialTexture.color_type")?;
    let sampler: TextureWrapType = reader.read_enum(config, "MaterialTexture.sampler")?;
    Ok(MaterialTexture { name, uniform_name, index, priority, param, color_type, sampler })
}

fn read_material_uniform(reader: &mut BinaryReader, version: i32, config: &ParseConfig) -> (res: Result<MaterialUniform, Error>)
    ensures
        final(reader).data() == old(reader).data(),
        final(reader).pos() >= old(reader).pos(),
        prv(res, final(reader).pos()) == sp_material_uniform(old(reader).data(), old(reader).pos(), version, *config),
{
    let name = reader.read_ascii_string()?;
    let uniform_name = read_uniform_name(reader, version)?;
    let offset = reader.read_i32()?;
    let priority = reader.read_i32()?;
    let value_type: MaterialUniformType = reader.read_enum(config, "MaterialUniform.value_type")?;
    let x = reader.read_f32()?;
    let y = reader.read_f32()?;
    let z = reader.read_f32()?;
    let w = reader.read_f32()?;
    Ok(MaterialUniform { name, uniform_name, offset, priority, value_type, default_values: Vector4D { x, y, z, w } })
}

fn read_material_gradient(reader: &mut BinaryReader) -> (res: Result<MaterialGradient, Error>)
    ensures
        final(reader).data() == old(reader).data(),
        final(reader).pos() >= old(reader).pos(),
        prv(res, final(reader).pos()) == sp_material_gradient(old(reader).data(), old(reader).pos()),
{
    let name = reader.read_ascii_string()?;
    let uniform_name = reader.read_ascii_string()?;
    let _offset = reader.read_i32()?;
    let _priority = reader.read_i32()?;
    let gradient = parse_gradient(reader)?;
    Ok(MaterialGradient { name, uniform_name: Some(uniform_name), gradient })
}

#[verifier::loop_isolation(false)]
fn read_textures(reader: &mut BinaryReader, version: i32, config: &ParseConfig) -> (res: Result<Vec<MaterialTexture>, Error>)
    ensures
        final(reader).data() == old(reader).data(),
        final(reader).pos() >= old(reader).pos(),
        match (res, sp_counted(old(reader).data(), old(reader).pos(), texture_item(old(reader).data(), version, *config))) {
            (Ok(v), Ok((w, q))) => textures_view(v@) == w && q == final(reader).pos(),
            (Err(e), Err(f)) => e == f,
            _ => false,
        },
{
    let ghost d = reader.data();
    let count = #[verifier::truncate] (reader.read_i32()? as usize);
    let ghost p = reader.pos();
    let mut out: Vec<MaterialTexture> = Vec::new();
    proof {
        assert(textures_view(out@) =~= Seq::<SpecMaterialTexture>::empty());
    }
    let mut i: usize = 0;
    while i < count
        invariant
            reader.data() == d,
            reader.pos() >= p,
            i <= count,
            sp_repeat(i as nat, p, texture_item(d, version, *config)) == Ok::<(Seq<SpecMaterialTexture>, int), Error>(
                (textures_view(out@), reader.pos()),
            ),
        decreases count - i,
    {
        let t = match read_material_texture(reader, version, config) {
            Ok(t) => t,
            Err(e) => {
                proof {
                    lemma_repeat_err((i + 1) as nat, count as nat, p, texture_item(d, version, *config));
                }
                return Err(e);
            },
        };
        let ghost before = out@;
        out.push(t);
        proof {
            assert(textures_view(out@) =~= textures_view(before).push(t@));
        }
        i = i + 1;
    }
    Ok(out)
}

#[verifier::loop_isolation(false)]
fn read_uniforms(reader: &mut BinaryReader, version: i32, config: &ParseConfig) -> (res: Result<Vec<MaterialUniform>, Error>)
    ensures
        final(reader).data() == old(reader).data(),
        final(reader).pos() >= old(reader).pos(),
        match (res, sp_counted(old(reader).data(), old(reader).pos(), uniform_item(old(reader).data(), version, *config))) {
            (Ok(v), Ok((w, q))) => uniforms_view(v@) == w && q == final(reader).pos(),
            (Err(e), Err(f)) => e == f,
            _ => false,
        },
{
    let ghost d = reader.data();
    let count = #[verifier::truncate] (reader.read_i32()? as usize);
    let ghost p = reader.pos();
    let mut out: Vec<MaterialUniform> = Vec::new();
    proof {
        assert(uniforms_view(out@) =~= Seq::<SpecMaterialUniform>::empty());
    }
    let mut i: usize = 0;
    while i < count
        invariant
            reader.data() == d,
            reader.pos() >= p,
            i <= count,
            sp_repeat(i as nat, p, uniform_item(d, version, *config)) == Ok::<(Seq<SpecMaterialUniform>, int), Error>(
                (uniforms_view(out@), reader.pos()),
            ),
        decreases count - i,
    {
        let u = match read_material_uniform(reader, version, config) {
            Ok(u) => u,
            Err(e) => {
                proof {
                    lemma_repeat_err((i + 1) as nat, count as nat, p, uniform_item(d, version, *config));
                }
                return Err(e);
            },
        };
        let ghost before = out@;
        out.push(u);
        proof {
            assert(uniforms_view(out@) =~= uniforms_view(before).push(u@));
        }
        i = i + 1;
    }
    Ok(out)
}

#[verifier::loop_isolation(false)]
fn read_material_gradients(reader: &mut BinaryReader) -> (res: Result<Vec<MaterialGradient>, Error>)
    ensures
        final(reader).data() == old(reader).data(),
        final(reader).pos() >= old(reader).pos(),
        match (res, sp_counted(old(reader).data(), old(reader).pos(), material_gradient_item(old(reader).data()))) {
            (Ok(v), Ok((w, q))) => material_gradients_view(v@) == w && q == final(reader).pos(),
            (Err(e), Err(f)) => e == f,
            _ => false,
        },
{
    let ghost d = reader.data();
    let count = #[verifier::truncate] (reader.read_i32()? as usize);
    let ghost p = reader.pos();
    let mut out: Vec<MaterialGradient> = Vec::new();
    proof {
        assert(material_gradients_view(out@) =~= Seq::<SpecMaterialGradient>::empty());
    }
    let mut i: usize = 0;
    while i < count
        invariant
            reader.data() == d,
            reader.pos() >= p,
            i <= count,
            sp_repeat(i as nat, p, material_gradient_item(d)) == Ok::<(Seq<SpecMaterialGradient>, int), Error>(
                (material_gradients_view(out@), reader.pos()),
            ),
        decreases count - i,
    {
        let g = match read_material_gradient(reader) {
            Ok(g) => g,
            Err(e) => {
                proof {
                    lemma_repeat_err((i + 1) as nat, count as nat, p, material_gradient_item(d));
                }
                return Err(e);
            },
        };
        let ghost before = out@;
        out.push(g);
        proof {
            assert(material_gradients_view(out@) =~= material_gradients_view(before).push(g@));
        }
        i = i + 1;
    }
    Ok(out)
}

// ---------------------------------------------------------------- chunks

/// The scalar head of a parameter chunk: shading model, normal flag (not
/// kept), refraction flag, custom data counts.
pub open spec fn sp_prm_head(d: Seq<u8>, p: int, cfg: ParseConfig) -> PR<(ShadingModelType, bool, i32, i32)> {
    chain(sp_enum::<ShadingModelType>(d, p, cfg, "Material.shading_model"), |sm: ShadingModelType, p: int|
    chain(sp_i32(d, p), |_has_normal: i32, p: int|
    chain(sp_bool(d, p), |has_refraction: bool, p: int|
    chain(sp_i32(d, p), |c1: i32, p: int|
    chain(sp_i32(d, p), |c2: i32, p: int|
    Ok(((sm, has_refraction, c1, c2), p)))))))
}

/// The required methods: read from material version 1703, else kept.
pub open spec fn sp_required_methods(d: Seq<u8>, p: int, version: i32, cfg: ParseConfig, old_methods: Seq<MaterialRequiredMethod>) -> PR<
    Seq<MaterialRequiredMethod>,
> {
    if version >= MATERIAL_VERSION_17_ALPHA4 {
        sp_counted(d, p, enum_item::<MaterialRequiredMethod>(d, cfg, "Material.required_method"))
    } else {
        Ok((old_methods, p))
    }
}

/// The gradient uniforms and fixed gradients: read from material version
/// 1703, else kept.
pub open spec fn sp_prm_gradients(d: Seq<u8>, p: int, version: i32, m: SpecMaterialFile) -> PR<(Seq<SpecMaterialGradient>, Seq<SpecMaterialGradient>)> {
    if version >= MATERIAL_VERSION_17_ALPHA4 {
        chain(sp_counted(d, p, material_gradient_item(d)), |g: Seq<SpecMaterialGradient>, p: int|
        chain(sp_counted(d, p, material_gradient_item(d)), |f: Seq<SpecMaterialGradient>, p: int|
        Ok(((g, f), p))))
    } else {
        Ok(((m.gradients, m.fixed_gradients), p))
    }
}

/// A parameter chunk applied to the material read so far.
#[verifier::opaque]
pub open spec fn sp_prm(d: Seq<u8>, p: int, version: i32, cfg: ParseConfig, m: SpecMaterialFile) -> PR<SpecMaterialFile> {
    chain(sp_prm_head(d, p, cfg), |h: (ShadingModelType, bool, i32, i32), p: int|
    chain(sp_required_methods(d, p, version, cfg, m.required_methods), |required_methods: Seq<MaterialRequiredMethod>, p: int|
    chain(sp_counted(d, p, texture_item(d, version, cfg)), |textures: Seq<SpecMaterialTexture>, p: int|
    chain(sp_counted(d, p, uniform_item(d, version, cfg)), |uniforms: Seq<SpecMaterialUniform>, p: int|
    chain(sp_prm_gradients(d, p, version, m), |g: (Seq<SpecMaterialGradient>, Seq<SpecMaterialGradient>), p: int|
    Ok((SpecMaterialFile {
        shading_model: h.0,
        has_refraction: h.1,
        custom_data_1_count: h.2,
        custom_data_2_count: h.3,
        required_methods,
        textures,
        uniforms,
        gradients: g.0,
        fixed_gradients: g.1,
        ..m
    }, p)))))))
}

/// Code bytes without one trailing NUL byte.
pub open spec fn strip_nul(b: Seq<u8>) -> Seq<u8> {
    if b.len() > 0 && b.last() == 0 {
        b.drop_last()
    } else {
        b
    }
}

/// A generated code chunk: a byte length, then the code (a trailing NUL
/// dropped), decoded leniently.
#[verifier::opaque]
pub open spec fn sp_gene(d: Seq<u8>, p: int) -> PR<Seq<char>> {
    chain(sp_i32(d, p), |n: i32, p: int|
    chain(sp_bytes(d, p, n as usize as int), |b: Seq<u8>, p: int|
    Ok((utf8_lossy(strip_nul(b)), p))))
}

/// The error for a chunk header with a negative size.
pub open spec fn negative_chunk(id: FourCC, size: i32, p: int) -> Error {
    Error::InvalidChunk { problem: ChunkProblem::NegativeSize { chunk_id: id, size: size, position: p as usize } }
}

/// The chunks of a material from `p` on, applied to the material read so far.
/// The walk stops when fewer than 8 bytes (a chunk header) remain. The first
/// parameter chunk that finds no textures yet is parsed, and the first code
/// chunk; any other chunk is skipped by its size.
pub open spec fn sp_material_chunks(d: Seq<u8>, p: int, version: i32, cfg: ParseConfig, m: SpecMaterialFile) -> Result<SpecMaterialFile, Error>
    decreases d.len() - p,
{
    if p < 0 || d.len() - p < 8 {
        Ok(m)
    } else {
        let id = fourcc_at(d, p);
        let size = le32(d, p + 4) as i32;
        if size < 0 {
            Err(negative_chunk(id, size, p))
        } else {
            let next: PR<SpecMaterialFile> = if id == spec_chunk_prm() && m.textures.len() == 0 {
                sp_prm(d, p + 8, version, cfg, m)
            } else if id == spec_chunk_gene() && m.code is None {
                chain(sp_gene(d, p + 8), |code: Seq<char>, q: int| Ok((SpecMaterialFile { code: Some(code), ..m }, q)))
            } else {
                chain(sp_bytes(d, p + 8, size as int), |b: Seq<u8>, q: int| Ok((m, q)))
            };
            match next {
                Err(e) => Err(e),
                Ok((m2, q)) => if p < q <= d.len() {
                    sp_material_chunks(d, q, version, cfg, m2)
                } else {
                    Ok(m2)
                },
            }
        }
    }
}

/// The material read from the header, before any chunk.
pub open spec fn spec_material_head(version: i32, guid: u64) -> SpecMaterialFile {
    SpecMaterialFile {
        version,
        guid,
        shading_model: ShadingModelType::Unlit,
        has_refraction: false,
        custom_data_1_count: 0,
        custom_data_2_count: 0,
        required_methods: Seq::empty(),
        textures: Seq::empty(),
        uniforms: Seq::empty(),
        gradients: Seq::empty(),
        fixed_gradients: Seq::empty(),
        code: None,
    }
}

/// The material an `.efkmat` file holds: `"EFKM"`, a supported version, a
/// 64-bit id (two `u32` halves, low first), then the chunks.
pub open spec fn spec_parse_material(d: Seq<u8>, cfg: ParseConfig) -> Result<SpecMaterialFile, Error> {
    if d.len() < 4 {
        Err(eof(0, 4))
    } else if fourcc_at(d, 0) != spec_magic_efkm() {
        Err(Error::InvalidMagic { expected: spec_magic_efkm(), got: fourcc_at(d, 0) })
    } else {
        match chain(sp_i32(d, 4), |version: i32, p: int|
            if !is_supported_material_version(version) {
                Err(Error::UnsupportedVersion { version })
            } else {
                chain(sp_u32(d, p), |lo: u32, p: int|
                chain(sp_u32(d, p), |hi: u32, p: int|
                Ok(((version, (lo as u64) | ((hi as u64) << 32u64)), p))))
            }) {
            Err(e) => Err(e),
            Ok((h, p)) => sp_material_chunks(d, p, h.0, cfg, spec_material_head(h.0, h.1)),
        }
    }
}

/// The model of a material result.
pub open spec fn material_result(res: Result<MaterialFile, Error>) -> Result<SpecMaterialFile, Error> {
    match res {
        Ok(m) => Ok(m@),
        Err(e) => Err(e),
    }
}

fn read_prm_head(reader: &mut BinaryReader, config: &ParseConfig) -> (res: Result<(ShadingModelType, bool, i32, i32), Error>)
    ensures
        final(reader).data() == old(reader).data(),
        final(reader).pos() >= old(reader).pos(),
        pr(res, final(reader).pos()) == sp_prm_head(old(reader).data(), old(reader).pos(), *config),
{
    let sm: ShadingModelType = reader.read_enum(config, "Material.shading_model")?;
    let _has_normal = reader.read_i32()?;
    let has_refraction = reader.read_i32_as_bool()?;
    let c1 = reader.read_i32()?;
    let c2 = reader.read_i32()?;
    Ok((sm, has_refraction, c1, c2))
}

/// Parse a parameter chunk into `material`. On error, `material` may hold
/// the fields read before the failure.
pub fn parse_prm_chunk(reader: &mut BinaryReader, version: i32, config: &ParseConfig, material: &mut MaterialFile) -> (res: Result<(), Error>)
    ensures
        final(reader).data() == old(reader).data(),
        final(reader).pos() >= old(reader).pos(),
        match sp_prm(old(reader).data(), old(reader).pos(), version, *config, old(material)@) {
            Ok((m, q)) => res is Ok && final(material)@ == m && final(reader).pos() == q,
            Err(e) => res == Err::<(), Error>(e),
        },
{
    proof {
        reveal(sp_prm);
    }
    let h = read_prm_head(reader, config)?;
    material.shading_model = h.0;
    material.has_refraction = h.1;
    material.custom_data_1_count = h.2;
    material.custom_data_2_count = h.3;
    if version >= MATERIAL_VERSION_17_ALPHA4 {
        let count = #[verifier::truncate] (reader.read_i32()? as usize);
        material.required_methods = reader.read_enum_seq::<MaterialRequiredMethod>(count, config, "Material.required_method")?;
    }
    material.textures = read_textures(reader, version, config)?;
    material.uniforms = read_uniforms(reader, version, config)?;
    if version >= MATERIAL_VERSION_17_ALPHA4 {
        material.gradients = read_material_gradients(reader)?;
        material.fixed_gradients = read_material_gradients(reader)?;
    }
    proof {
        assert(material@.textures == textures_view(material.textures@));
    }
    Ok(())
}

fn parse_gene_chunk(reader: &mut BinaryReader) -> (res: Result<String, Error>)
    ensures
        final(reader).data() == old(reader).data(),
        final(reader).pos() >= old(reader).pos(),
        prv(res, final(reader).pos()) == sp_gene(old(reader).data(), old(reader).pos()),
{
    proof {
        reveal(sp_gene);
    }
    let n = #[verifier::truncate] (reader.read_i32()? as usize);
    let code_bytes = reader.read_bytes(n)?;
    let len = code_bytes.len();
    if len > 0 && code_bytes[len - 1] == 0 {
        let trimmed = vstd::slice::slice_subrange(code_bytes, 0, len - 1);
        proof {
            assert(trimmed@ =~= strip_nul(code_bytes@));
        }
        Ok(string_from_utf8_lossy(trimmed))
    } else {
        Ok(string_from_utf8_lossy(code_bytes))
    }
}

/// Whether a material file version is one this library reads.
pub fn is_valid_material_version(v: i32) -> (b: bool)
    ensures
        b == is_supported_material_version(v),
{
    v == MATERIAL_VERSION_15 || v == MATERIAL_VERSION_16 || v == MATERIAL_VERSION_17_ALPHA2 || v
        == MATERIAL_VERSION_17_ALPHA4 || v == MATERIAL_VERSION_17 || v == MATERIAL_VERSION_18
}

/// Read a chunk header (id and size) when at least 8 bytes remain.
fn read_chunk_header(reader: &mut BinaryReader) -> (res: (FourCC, i32))
    requires
        old(reader).pos() + 8 <= old(reader).data().len(),
    ensures
        final(reader).data() == old(reader).data(),
        final(reader).pos() == old(reader).pos() + 8,
        res.0 == fourcc_at(old(reader).data(), old(reader).pos()),
        res.1 == le32(old(reader).data(), old(reader).pos() + 4) as i32,
{
    let ghost d = reader.data();
    let ghost p0 = reader.pos();
    match reader.read_bytes(4) {
        Ok(id_bytes) => {
            assert(id_bytes@ == d.subrange(p0, p0 + 4));
            let id = fourcc(id_bytes, 0);
            match reader.read_i32() {
                Ok(size) => (id, size),
                Err(_) => (id, 0),
            }
        },
        Err(_) => (FourCC(0, 0, 0, 0), 0),
    }
}

/// Parse an `.efkmat` material file.
#[verifier::loop_isolation(false)]
pub fn parse_material(data: &[u8], config: &ParseConfig) -> (res: Result<MaterialFile, Error>)
    ensures
        material_result(res) == spec_parse_material(data@, *config),
{
    let ghost d = data@;
    let mut reader = BinaryReader::new(data);
    let magic_bytes = reader.read_bytes(4)?;
    let magic = fourcc(magic_bytes, 0);
    if magic != magic_efkm() {
        return Err(Error::InvalidMagic { expected: magic_efkm(), got: magic });
    }
    let version = reader.read_i32()?;
    if !is_valid_material_version(version) {
        return Err(Error::UnsupportedVersion { version });
    }
    let lo = reader.read_u32()?;
    let hi = reader.read_u32()?;
    let guid: u64 = (lo as u64) | ((hi as u64) << 32u64);
    let mut material = MaterialFile {
        version,
        guid,
        shading_model: ShadingModelType::Unlit,
        has_refraction: false,
        custom_data_1_count: 0,
        custom_data_2_count: 0,
        required_methods: Vec::new(),
        textures: Vec::new(),
        uniforms: Vec::new(),
        gradients: Vec::new(),
        fixed_gradients: Vec::new(),
        code: None,
    };
    proof {
        assert(material@.required_methods =~= Seq::<MaterialRequiredMethod>::empty());
        assert(material@.textures =~= Seq::<SpecMaterialTexture>::empty());
        assert(material@.uniforms =~= Seq::<SpecMaterialUniform>::empty());
        assert(material@.gradients =~= Seq::<SpecMaterialGradient>::empty());
        assert(material@.fixed_gradients =~= Seq::<SpecMaterialGradient>::empty());
        assert(material@ == spec_material_head(version, guid));
    }
    let mut left = reader.remaining();
    while left >= 8
        invariant
            reader.data() == d,
            d == data@,
            left == d.len() - reader.pos(),
            spec_parse_material(d, *config) == sp_material_chunks(d, reader.pos(), version, *config, material@),
        decreases left,
    {
        let ghost p0 = reader.pos();
        let header = read_chunk_header(&mut reader);
        let id = header.0;
        let size = header.1;
        if size < 0 {
            let position = reader.position() - 8;
            return Err(
                Error::InvalidChunk {
                    problem: ChunkProblem::NegativeSize { chunk_id: id, size, position },
                },
            );
        }
        if id == chunk_prm() && material.textures.len() == 0 {
            parse_prm_chunk(&mut reader, version, config, &mut material)?;
        } else if id == chunk_gene() && material.code.is_none() {
            let code = parse_gene_chunk(&mut reader)?;
            material.code = Some(code);
        } else {
            reader.skip(size as usize)?;
        }
        left = reader.remaining();
    }
    Ok(material)
}

// ---------------------------------------------------------------- laws

/// Law: a texture slot that parses holds, after its name, its uniform name
/// (from material version 3) and its default path, the index, the priority and
/// the parameter as the three `i32` that follow, in that order; its name and
/// uniform name are the strings read first.
pub proof fn lemma_texture_slot_layout(d: Seq<u8>, p: int, version: i32, cfg: ParseConfig)
    requires
        sp_material_texture(d, p, version, cfg) is Ok,
    ensures
        ({
            let t = sp_material_texture(d, p, version, cfg)->Ok_0.0;
            let (name, q1) = sp_ascii_string(d, p)->Ok_0;
            let q2 = if version >= MATERIAL_VERSION_15 { sp_ascii_string(d, q1)->Ok_0.1 } else { q1 };
            let q3 = sp_ascii_string(d, q2)->Ok_0.1;
            &&& t.name == name
            &&& t.uniform_name == (if version >= MATERIAL_VERSION_15 {
                Some(sp_ascii_string(d, q1)->Ok_0.0)
            } else {
                None::<Seq<char>>
            })
            &&& t.index == le32(d, q3) as i32
            &&& t.priority == le32(d, q3 + 4) as i32
            &&& t.param == le32(d, q3 + 8) as i32
        }),
{
}

/// A parameter chunk keeps the material's version and id.
proof fn lemma_prm_keeps_header(d: Seq<u8>, p: int, version: i32, cfg: ParseConfig, m: SpecMaterialFile)
    requires
        sp_prm(d, p, version, cfg, m) is Ok,
    ensures
        sp_prm(d, p, version, cfg, m)->Ok_0.0.version == m.version,
        sp_prm(d, p, version, cfg, m)->Ok_0.0.guid == m.guid,
{
    reveal(sp_prm);
}

/// The chunk walk keeps the material's version and id.
proof fn lemma_chunks_keep_header(d: Seq<u8>, p: int, version: i32, cfg: ParseConfig, m: SpecMaterialFile)
    requires
        sp_material_chunks(d, p, version, cfg, m) is Ok,
    ensures
        sp_material_chunks(d, p, version, cfg, m)->Ok_0.version == m.version,
        sp_material_chunks(d, p, version, cfg, m)->Ok_0.guid == m.guid,
    decreases d.len() - p,
{
    if !(p < 0 || d.len() - p < 8) {
        let id = fourcc_at(d, p);
        let size = le32(d, p + 4) as i32;
        if id == spec_chunk_prm() && m.textures.len() == 0 {
            lemma_prm_keeps_header(d, p + 8, version, cfg, m);
            let (m2, q) = sp_prm(d, p + 8, version, cfg, m)->Ok_0;
            if p < q <= d.len() {
                lemma_chunks_keep_header(d, q, version, cfg, m2);
            }
        } else if id == spec_chunk_gene() && m.code is None {
            let (code, q) = sp_gene(d, p + 8)->Ok_0;
            if p < q <= d.len() {
                lemma_chunks_keep_header(d, q, version, cfg, SpecMaterialFile { code: Some(code), ..m });
            }
        } else if size >= 0 {
            let (b, q) = sp_bytes(d, p + 8, size as int)->Ok_0;
            if p < q <= d.len() {
                lemma_chunks_keep_header(d, q, version, cfg, m);
            }
        }
    }
}

/// Law: every material that parses carries a supported material version, the
/// one its header declares.
pub proof fn lemma_parsed_material_version(d: Seq<u8>, cfg: ParseConfig)
    requires
        spec_parse_material(d, cfg) is Ok,
    ensures
        spec_parse_material(d, cfg)->Ok_0.version == le32(d, 4) as i32,
        is_supported_material_version(spec_parse_material(d, cfg)->Ok_0.version),
{
    let version = le32(d, 4) as i32;
    let lo = le32(d, 8);
    let hi = le32(d, 12);
    let guid = (lo as u64) | ((hi as u64) << 32u64);
    lemma_chunks_keep_header(d, 16, version, cfg, spec_material_head(version, guid));
}

} // verus!
