//! `.efkmodel` model file parser.

use vstd::prelude::*;

use crate::config::ParseConfig;
use crate::error::Error;
use crate::reader::{chain, le32, lemma_repeat_all, lemma_repeat_err, lemma_repeat_fixed, lemma_repeat_len, pr, vec2_at, vec3_at, prv, sp_color, sp_i32, sp_repeat, sp_vector2d, sp_vector3d, BinaryReader, PR};
use crate::types::model::{ModelFace, ModelFile, ModelFrame, ModelVertex, SpecModelFile, SpecModelFrame};
use crate::types::primitives::{Color, Vector2D, Vector3D};

verus! {

/// The newest model file version this library reads.
pub const MODEL_LATEST_VERSION: i32 = 6;

/// The vertex color of files without vertex colors: opaque white.
pub open spec fn spec_default_vcolor() -> Color {
    Color { r: 255, g: 255, b: 255, a: 255 }
}

/// A vertex: position, normal, binormal, tangent, first UV; from version 6 a
/// second UV (else the first again); a color from version 1 (else white).
pub open spec fn sp_vertex(d: Seq<u8>, p: int, version: i32) -> PR<ModelVertex> {
    chain(sp_vector3d(d, p), |position: Vector3D, p: int|
    chain(sp_vector3d(d, p), |normal: Vector3D, p: int|
    chain(sp_vector3d(d, p), |binormal: Vector3D, p: int|
    chain(sp_vector3d(d, p), |tangent: Vector3D, p: int|
    chain(sp_vector2d(d, p), |uv1: Vector2D, p: int|
    chain(if version >= 6 { sp_vector2d(d, p) } else { Ok((uv1, p)) }, |uv2: Vector2D, p: int|
    chain(if version >= 1 { sp_color(d, p) } else { Ok((spec_default_vcolor(), p)) }, |vcolor: Color, p: int|
    Ok((ModelVertex { position, normal, binormal, tangent, uv1, uv2, vcolor }, p)))))))))
}

/// A face: three vertex indexes.
pub open spec fn sp_face(d: Seq<u8>, p: int) -> PR<ModelFace> {
    chain(sp_i32(d, p), |i0: i32, p: int|
    chain(sp_i32(d, p), |i1: i32, p: int|
    chain(sp_i32(d, p), |i2: i32, p: int|
    Ok((ModelFace { i0, i1, i2 }, p)))))
}

/// Reading one vertex, as an item of a repetition.
pub open spec fn vertex_item(d: Seq<u8>, version: i32) -> spec_fn(int) -> PR<ModelVertex> {
    |p: int| sp_vertex(d, p, version)
}

/// Reading one face, as an item of a repetition.
pub open spec fn face_item(d: Seq<u8>) -> spec_fn(int) -> PR<ModelFace> {
    |p: int| sp_face(d, p)
}

/// The error for a count above a limit.
pub open spec fn model_limit_error(field: &'static str, count: usize, max: usize) -> Error {
    Error::ResourceLimitExceeded { field: field, count: count, max: max }
}

/// A frame: a vertex count (at most the configured number), the vertices, a
/// face count (at most the configured number), the faces.
pub open spec fn sp_model_frame(d: Seq<u8>, p: int, version: i32, cfg: ParseConfig) -> PR<SpecModelFrame> {
    chain(sp_i32(d, p), |vc: i32, p: int|
    if vc as usize > cfg.limits.max_vertices_per_frame {
        Err(model_limit_error("model.vertex_count", vc as usize, cfg.limits.max_vertices_per_frame))
    } else {
        chain(sp_repeat(vc as usize as nat, p, vertex_item(d, version)), |vertices: Seq<ModelVertex>, p: int|
        chain(sp_i32(d, p), |fc: i32, p: int|
        if fc as usize > cfg.limits.max_faces_per_frame {
            Err(model_limit_error("model.face_count", fc as usize, cfg.limits.max_faces_per_frame))
        } else {
            chain(sp_repeat(fc as usize as nat, p, face_item(d)), |faces: Seq<ModelFace>, p: int|
            Ok((SpecModelFrame { vertices, faces }, p)))
        }))
    })
}

/// Reading one frame, as an item of a repetition.
pub open spec fn frame_item(d: Seq<u8>, version: i32, cfg: ParseConfig) -> spec_fn(int) -> PR<SpecModelFrame> {
    |p: int| sp_model_frame(d, p, version, cfg)
}

/// The frame count: read from version 5, else one frame.
pub open spec fn sp_frame_count(d: Seq<u8>, p: int, version: i32) -> PR<usize> {
    if version >= 5 {
        chain(sp_i32(d, p), |n: i32, p: int| Ok((n as usize, p)))
    } else {
        Ok((1usize, p))
    }
}

/// The model an `.efkmodel` file holds: a version (at most the newest), a
/// scale (versions 2 and 5+, not kept), a model count (not kept), the frame
/// count (at most the configured number), the frames.
pub open spec fn spec_parse_model(d: Seq<u8>, cfg: ParseConfig) -> Result<SpecModelFile, Error> {
    match chain(sp_i32(d, 0), |version: i32, p: int|
        if version > MODEL_LATEST_VERSION {
            Err(Error::UnsupportedVersion { version })
        } else {
            chain(if version == 2 || version >= 5 { sp_i32(d, p) } else { Ok((0i32, p)) }, |_scale: i32, p: int|
            chain(sp_i32(d, p), |_model_count: i32, p: int|
            chain(sp_frame_count(d, p, version), |n: usize, p: int|
            if n > cfg.limits.max_frame_count {
                Err(model_limit_error("model.frame_count", n, cfg.limits.max_frame_count))
            } else {
                chain(sp_repeat(n as nat, p, frame_item(d, version, cfg)), |frames: Seq<SpecModelFrame>, p: int|
                Ok((SpecModelFile { version, frames }, p)))
            })))
        }) {
        Ok((m, _)) => Ok(m),
        Err(e) => Err(e),
    }
}

/// The models of frames.
pub open spec fn frames_view(v: Seq<ModelFrame>) -> Seq<SpecModelFrame> {
    v.map_values(|f: ModelFrame| f@)
}

/// The model of a model result.
pub open spec fn model_result(res: Result<ModelFile, Error>) -> Result<SpecModelFile, Error> {
    match res {
        Ok(m) => Ok(m@),
        Err(e) => Err(e),
    }
}

fn read_vertex(reader: &mut BinaryReader, version: i32) -> (res: Result<ModelVertex, Error>)
    ensures
        final(reader).data() == old(reader).data(),
        final(reader).pos() >= old(reader).pos(),
        pr(res, final(reader).pos()) == sp_vertex(old(reader).data(), old(reader).pos(), version),
{
    let position = reader.read_vector3d()?;
    let normal = reader.read_vector3d()?;
    let binormal = reader.read_vector3d()?;
    let tangent = reader.read_vector3d()?;
    let uv1 = reader.read_vector2d()?;
    let uv2 = if version >= 6 {
        reader.read_vector2d()?
    } else {
        uv1
    };
    let vcolor = if version >= 1 {
        reader.read_color()?
    } else {
        Color { r: 255, g: 255, b: 255, a: 255 }
    };
    Ok(ModelVertex { position, normal, binormal, tangent, uv1, uv2, vcolor })
}

fn read_face(reader: &mut BinaryReader) -> (res: Result<ModelFace, Error>)
    ensures
        final(reader).data() == old(reader).data(),
        final(reader).pos() >= old(reader).pos(),
        pr(res, final(reader).pos()) == sp_face(old(reader).data(), old(reader).pos()),
{
    let i0 = reader.read_i32()?;
    let i1 = reader.read_i32()?;
    let i2 = reader.read_i32()?;
    Ok(ModelFace { i0, i1, i2 })
}

#[verifier::loop_isolation(false)]
fn read_vertices(reader: &mut BinaryReader, version: i32, count: usize) -> (res: Result<Vec<ModelVertex>, Error>)
    ensures
        final(reader).data() == old(reader).data(),
        final(reader).pos() >= old(reader).pos(),
        prv(res, final(reader).pos()) == sp_repeat(count as nat, old(reader).pos(), vertex_item(old(reader).data(), version)),
{
    let ghost d = reader.data();
    let ghost p = reader.pos();
    let mut out: Vec<ModelVertex> = Vec::new();
    let mut i: usize = 0;
    while i < count
        invariant
            reader.data() == d,
            reader.pos() >= p,
            i <= count,
            sp_repeat(i as nat, p, vertex_item(d, version)) == Ok::<(Seq<ModelVertex>, int), Error>((out@, reader.pos())),
        decreases count - i,
    {
        let v = match read_vertex(reader, version) {
            Ok(v) => v,
            Err(e) => {
                proof {
                    lemma_repeat_err((i + 1) as nat, count as nat, p, vertex_item(d, version));
                }
                return Err(e);
            },
        };
        out.push(v);
        i = i + 1;
    }
    Ok(out)
}

#[verifier::loop_isolation(false)]
fn read_faces(reader: &mut BinaryReader, count: usize) -> (res: Result<Vec<ModelFace>, Error>)
    ensures
        final(reader).data() == old(reader).data(),
        final(reader).pos() >= old(reader).pos(),
        prv(res, final(reader).pos()) == sp_repeat(count as nat, old(reader).pos(), face_item(old(reader).data())),
{
    let ghost d = reader.data();
    let ghost p = reader.pos();
    let mut out: Vec<ModelFace> = Vec::new();
    let mut i: usize = 0;
    while i < count
        invariant
            reader.data() == d,
            reader.pos() >= p,
            i <= count,
            sp_repeat(i as nat, p, face_item(d)) == Ok::<(Seq<ModelFace>, int), Error>((out@, reader.pos())),
        decreases count - i,
    {
        let f = match read_face(reader) {
            Ok(f) => f,
            Err(e) => {
                proof {
                    lemma_repeat_err((i + 1) as nat, count as nat, p, face_item(d));
                }
                return Err(e);
            },
        };
        out.push(f);
        i = i + 1;
    }
    Ok(out)
}

/// Parse one frame of a model.
pub fn parse_model_frame(reader: &mut BinaryReader, version: i32, config: &ParseConfig) -> (res: Result<ModelFrame, Error>)
    ensures
        final(reader).data() == old(reader).data(),
        final(reader).pos() >= old(reader).pos(),
        prv(res, final(reader).pos()) == sp_model_frame(old(reader).data(), old(reader).pos(), version, *config),
{
    let vertex_count = #[verifier::truncate] (reader.read_i32()? as usize);
    if vertex_count > config.limits.max_vertices_per_frame {
        return Err(Error::ResourceLimitExceeded {
            field: "model.vertex_count",
            count: vertex_count,
            max: config.limits.max_vertices_per_frame,
        });
    }
    let vertices = read_vertices(reader, version, vertex_count)?;
    let face_count = #[verifier::truncate] (reader.read_i32()? as usize);
    if face_count > config.limits.max_faces_per_frame {
        return Err(Error::ResourceLimitExceeded {
            field: "model.face_count",
            count: face_count,
            max: config.limits.max_faces_per_frame,
        });
    }
    let faces = read_faces(reader, face_count)?;
    Ok(ModelFrame { vertices, faces })
}

/// Parse an `.efkmodel` model file.
#[verifier::loop_isolation(false)]
pub fn parse_model(data: &[u8], config: &ParseConfig) -> (res: Result<ModelFile, Error>)
    ensures
        model_result(res) == spec_parse_model(data@, *config),
{
    let ghost d = data@;
    let mut reader = BinaryReader::new(data);
    let version = reader.read_i32()?;
    if version > MODEL_LATEST_VERSION {
        return Err(Error::UnsupportedVersion { version });
    }
    if version == 2 || version >= 5 {
        let _scale = reader.read_i32()?;
    }
    let _model_count = reader.read_i32()?;
    let frame_count: usize = if version >= 5 {
        #[verifier::truncate] (reader.read_i32()? as usize)
    } else {
        1
    };
    if frame_count > config.limits.max_frame_count {
        return Err(Error::ResourceLimitExceeded {
            field: "model.frame_count",
            count: frame_count,
            max: config.limits.max_frame_count,
        });
    }
    let ghost p = reader.pos();
    let mut frames: Vec<ModelFrame> = Vec::new();
    proof {
        assert(frames_view(frames@) =~= Seq::<SpecModelFrame>::empty());
    }
    let mut i: usize = 0;
    while i < frame_count
        invariant
            reader.data() == d,
            reader.pos() >= p,
            i <= frame_count,
            sp_repeat(i as nat, p, frame_item(d, version, *config)) == Ok::<(Seq<SpecModelFrame>, int), Error>(
                (frames_view(frames@), reader.pos()),
            ),
        decreases frame_count - i,
    {
        let f = match parse_model_frame(&mut reader, version, config) {
            Ok(f) => f,
            Err(e) => {
                proof {
                    lemma_repeat_err((i + 1) as nat, frame_count as nat, p, frame_item(d, version, *config));
                }
                return Err(e);
            },
        };
        let ghost before = frames@;
        frames.push(f);
        proof {
            assert(frames_view(frames@) =~= frames_view(before).push(f@));
        }
        i = i + 1;
    }
    Ok(ModelFile { version, frames })
}

// ---------------------------------------------------------------- laws

/// The size of a vertex record: four vectors and a UV (56 bytes), a second UV
/// from version 6, a color from version 1.
pub open spec fn vertex_size(version: i32) -> nat {
    56 + (if version >= 6 { 8nat } else { 0nat }) + (if version >= 1 { 4nat } else { 0nat })
}

/// The vertex stored at `p`: position, normal, binormal and tangent (three
/// `f32` each), the first UV, the second UV (from version 6; else the first
/// again) and the color bytes r, g, b, a (from version 1; else white).
pub open spec fn vertex_at(d: Seq<u8>, p: int, version: i32) -> ModelVertex {
    let uv1 = vec2_at(d, p + 48);
    let c = if version >= 6 { p + 64 } else { p + 56 };
    ModelVertex {
        position: vec3_at(d, p),
        normal: vec3_at(d, p + 12),
        binormal: vec3_at(d, p + 24),
        tangent: vec3_at(d, p + 36),
        uv1,
        uv2: if version >= 6 { vec2_at(d, p + 56) } else { uv1 },
        vcolor: if version >= 1 { Color { r: d[c], g: d[c + 1], b: d[c + 2], a: d[c + 3] } } else { spec_default_vcolor() },
    }
}

/// Law: a vertex record holds position, normal, binormal, tangent, the UVs and
/// the color in that order.
pub proof fn lemma_vertex_layout(d: Seq<u8>, p: int, version: i32)
    requires
        p + vertex_size(version) <= d.len(),
    ensures
        sp_vertex(d, p, version) == Ok::<(ModelVertex, int), Error>((vertex_at(d, p, version), p + vertex_size(version))),
{
}

/// Law: the vertices of a frame that parses are the vertex records that follow
/// its vertex count, in file order: vertex `i` is read at
/// `p + 4 + i * vertex_size(version)`.
pub proof fn lemma_frame_vertices(d: Seq<u8>, p: int, version: i32, cfg: ParseConfig)
    requires
        sp_model_frame(d, p, version, cfg) is Ok,
    ensures
        forall|i: int| 0 <= i < sp_model_frame(d, p, version, cfg)->Ok_0.0.vertices.len()
            ==> #[trigger] sp_model_frame(d, p, version, cfg)->Ok_0.0.vertices[i]
            == vertex_at(d, p + 4 + i * vertex_size(version), version),
{
    let (vc, p1) = sp_i32(d, p)->Ok_0;
    let item = vertex_item(d, version);
    let f = |q: int| vertex_at(d, q, version);
    assert forall|q: int| #[trigger] item(q) is Ok implies item(q) == Ok::<(ModelVertex, int), Error>(
        (f(q), q + vertex_size(version)),
    ) by {}
    lemma_repeat_fixed(vc as usize as nat, p1, item, vertex_size(version), f);
}

/// Whether a frame respects the configured limits on vertices and faces.
pub open spec fn frame_within_limits(cfg: ParseConfig) -> spec_fn(SpecModelFrame) -> bool {
    |f: SpecModelFrame|
        f.vertices.len() <= cfg.limits.max_vertices_per_frame && f.faces.len() <= cfg.limits.max_faces_per_frame
}

/// A frame that parses respects the limits.
proof fn lemma_frame_within(d: Seq<u8>, p: int, version: i32, cfg: ParseConfig)
    requires
        sp_model_frame(d, p, version, cfg) is Ok,
    ensures
        frame_within_limits(cfg)(sp_model_frame(d, p, version, cfg)->Ok_0.0),
{
    let (vc, p1) = sp_i32(d, p)->Ok_0;
    lemma_repeat_len(vc as usize as nat, p1, vertex_item(d, version));
    let (vs, p2) = sp_repeat(vc as usize as nat, p1, vertex_item(d, version))->Ok_0;
    let (fc, p3) = sp_i32(d, p2)->Ok_0;
    lemma_repeat_len(fc as usize as nat, p3, face_item(d));
}

/// Law: a model that parses has a version no newer than the newest known one
/// and respects the configured limits: no more frames than allowed, and no
/// frame with more vertices or faces than allowed.
pub proof fn lemma_parsed_model_within_limits(d: Seq<u8>, cfg: ParseConfig)
    requires
        spec_parse_model(d, cfg) is Ok,
    ensures
        ({
            let m = spec_parse_model(d, cfg)->Ok_0;
            &&& m.version <= MODEL_LATEST_VERSION
            &&& m.frames.len() <= cfg.limits.max_frame_count
            &&& forall|i: int| 0 <= i < m.frames.len() ==> frame_within_limits(cfg)(#[trigger] m.frames[i])
        }),
{
    let (version, p0) = sp_i32(d, 0)->Ok_0;
    let (sc, p1) = (if version == 2 || version >= 5 { sp_i32(d, p0) } else { Ok((0i32, p0)) })->Ok_0;
    let (mc, p2) = sp_i32(d, p1)->Ok_0;
    let (n, p3) = sp_frame_count(d, p2, version)->Ok_0;
    let item = frame_item(d, version, cfg);
    lemma_repeat_len(n as nat, p3, item);
    assert forall|q: int| #[trigger] item(q) is Ok implies frame_within_limits(cfg)(item(q)->Ok_0.0) by {
        lemma_frame_within(d, q, version, cfg);
    }
    lemma_repeat_all(n as nat, p3, item, frame_within_limits(cfg));
}

} // verus!
