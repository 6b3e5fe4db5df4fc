//! NURBS curve file parser.
//!
//! The curve's length is a floating-point computation over the control points
//! and is left to the caller.

use vstd::prelude::*;

use crate::config::ParseConfig;
use crate::error::Error;
use crate::reader::{chain, le64, lemma_repeat_err, lemma_repeat_fixed, lemma_repeat_len, pr, prv, sp_i32, sp_repeat, sp_u64, u64_item, BinaryReader, PR};
use crate::types::curve::{DVector4, NurbsCurve, SpecNurbsCurve};

verus! {

/// A control point: four `f64` values.
pub open spec fn sp_dvector4(d: Seq<u8>, p: int) -> PR<DVector4> {
    chain(sp_u64(d, p), |x: u64, p: int|
    chain(sp_u64(d, p), |y: u64, p: int|
    chain(sp_u64(d, p), |z: u64, p: int|
    chain(sp_u64(d, p), |w: u64, p: int|
    Ok((DVector4 { x, y, z, w }, p))))))
}

/// Reading one control point, as an item of a repetition.
pub open spec fn point_item(d: Seq<u8>) -> spec_fn(int) -> PR<DVector4> {
    |p: int| sp_dvector4(d, p)
}

/// The error for a count above a limit.
pub open spec fn curve_limit_error(field: &'static str, count: usize, cfg: ParseConfig) -> Error {
    Error::ResourceLimitExceeded { field: field, count: count, max: cfg.limits.max_vertices_per_frame }
}

/// The tail of a curve: order, step, type, dimension.
pub open spec fn sp_curve_tail(d: Seq<u8>, p: int) -> PR<(i32, u64, i32, i32)> {
    chain(sp_i32(d, p), |order: i32, p: int|
    chain(sp_u64(d, p), |step: u64, p: int|
    chain(sp_i32(d, p), |curve_type: i32, p: int|
    chain(sp_i32(d, p), |dimension: i32, p: int|
    Ok(((order, step, curve_type, dimension), p))))))
}

/// The curve a NURBS curve file holds: converter version, control point count
/// (at most the configured vertex number), points, knot count (likewise
/// bounded), knots, then order, step, type and dimension.
pub open spec fn spec_parse_curve(d: Seq<u8>, cfg: ParseConfig) -> Result<SpecNurbsCurve, Error> {
    match chain(sp_i32(d, 0), |converter_version: i32, p: int|
        chain(sp_i32(d, p), |pc: i32, p: int|
        if pc as usize > cfg.limits.max_vertices_per_frame {
            Err(curve_limit_error("curve.control_points", pc as usize, cfg))
        } else {
            chain(sp_repeat(pc as usize as nat, p, point_item(d)), |control_points: Seq<DVector4>, p: int|
            chain(sp_i32(d, p), |kc: i32, p: int|
            if kc as usize > cfg.limits.max_vertices_per_frame {
                Err(curve_limit_error("curve.knots", kc as usize, cfg))
            } else {
                chain(sp_repeat(kc as usize as nat, p, u64_item(d)), |knots: Seq<u64>, p: int|
                chain(sp_curve_tail(d, p), |t: (i32, u64, i32, i32), p: int|
                Ok((SpecNurbsCurve {
                    converter_version,
                    control_points,
                    knots,
                    order: t.0,
                    step: t.1,
                    curve_type: t.2,
                    dimension: t.3,
                }, p))))
            }))
        })) {
        Ok((c, _)) => Ok(c),
        Err(e) => Err(e),
    }
}

/// Law: a curve that parses holds no more control points and no more knots
/// than the configured vertex limit.
pub proof fn lemma_parsed_curve_within_limits(d: Seq<u8>, cfg: ParseConfig)
    requires
        spec_parse_curve(d, cfg) is Ok,
    ensures
        spec_parse_curve(d, cfg)->Ok_0.control_points.len() <= cfg.limits.max_vertices_per_frame,
        spec_parse_curve(d, cfg)->Ok_0.knots.len() <= cfg.limits.max_vertices_per_frame,
{
    let (pc, p1) = sp_i32(d, 4)->Ok_0;
    lemma_repeat_len(pc as usize as nat, p1, point_item(d));
    let (cps, p2) = sp_repeat(pc as usize as nat, p1, point_item(d))->Ok_0;
    let (kc, p3) = sp_i32(d, p2)->Ok_0;
    lemma_repeat_len(kc as usize as nat, p3, u64_item(d));
}

/// The control point stored at `p`: the little-endian `f64` bit patterns of
/// x, y, z and w, one after another.
pub open spec fn point_at(d: Seq<u8>, p: int) -> DVector4 {
    DVector4 { x: le64(d, p), y: le64(d, p + 8), z: le64(d, p + 16), w: le64(d, p + 24) }
}

/// Law: a control point record is x, y, z, w in that order, 32 bytes long.
pub proof fn lemma_control_point_layout(d: Seq<u8>, p: int)
    requires
        p + 32 <= d.len(),
    ensures
        sp_dvector4(d, p) == Ok::<(DVector4, int), Error>((point_at(d, p), p + 32)),
{
}

/// Law: the control points of a curve that parses are the 32-byte records
/// that follow its two header words, in file order: point `i` is x, y, z, w
/// read at byte `8 + 32 * i`.
pub proof fn lemma_parsed_curve_points(d: Seq<u8>, cfg: ParseConfig)
    requires
        spec_parse_curve(d, cfg) is Ok,
    ensures
        forall|i: int| 0 <= i < spec_parse_curve(d, cfg)->Ok_0.control_points.len()
            ==> #[trigger] spec_parse_curve(d, cfg)->Ok_0.control_points[i] == point_at(d, 8 + i * 32),
{
    let (pc, p1) = sp_i32(d, 4)->Ok_0;
    assert(p1 == 8);
    let f = |q: int| point_at(d, q);
    assert forall|q: int| #[trigger] point_item(d)(q) is Ok implies point_item(d)(q) == Ok::<(DVector4, int), Error>(
        (f(q), q + 32),
    ) by {}
    lemma_repeat_fixed(pc as usize as nat, 8, point_item(d), 32, f);
}

/// The model of a curve result.
pub open spec fn curve_result(res: Result<NurbsCurve, Error>) -> Result<SpecNurbsCurve, Error> {
    match res {
        Ok(c) => Ok(c@),
        Err(e) => Err(e),
    }
}

fn read_dvector4(reader: &mut BinaryReader) -> (res: Result<DVector4, Error>)
    ensures
        final(reader).data() == old(reader).data(),
        final(reader).pos() >= old(reader).pos(),
        pr(res, final(reader).pos()) == sp_dvector4(old(reader).data(), old(reader).pos()),
{
    let x = reader.read_f64()?;
    let y = reader.read_f64()?;
    let z = reader.read_f64()?;
    let w = reader.read_f64()?;
    Ok(DVector4 { x, y, z, w })
}

#[verifier::loop_isolation(false)]
fn read_points(reader: &mut BinaryReader, count: usize) -> (res: Result<Vec<DVector4>, Error>)
    ensures
        final(reader).data() == old(reader).data(),
        final(reader).pos() >= old(reader).pos(),
        prv(res, final(reader).pos()) == sp_repeat(count as nat, old(reader).pos(), point_item(old(reader).data())),
{
    let ghost d = reader.data();
    let ghost p = reader.pos();
    let mut out: Vec<DVector4> = Vec::new();
    let mut i: usize = 0;
    while i < count
        invariant
            reader.data() == d,
            reader.pos() >= p,
            i <= count,
            sp_repeat(i as nat, p, point_item(d)) == Ok::<(Seq<DVector4>, int), Error>((out@, reader.pos())),
        decreases count - i,
    {
        let v = match read_dvector4(reader) {
            Ok(v) => v,
            Err(e) => {
                proof {
                    lemma_repeat_err((i + 1) as nat, count as nat, p, point_item(d));
                }
                return Err(e);
            },
        };
        out.push(v);
        i = i + 1;
    }
    Ok(out)
}

fn read_curve_tail(reader: &mut BinaryReader) -> (res: Result<(i32, u64, i32, i32), Error>)
    ensures
        final(reader).data() == old(reader).data(),
        final(reader).pos() >= old(reader).pos(),
        pr(res, final(reader).pos()) == sp_curve_tail(old(reader).data(), old(reader).pos()),
{
    let order = reader.read_i32()?;
    let step = reader.read_f64()?;
    let curve_type = reader.read_i32()?;
    let dimension = reader.read_i32()?;
    Ok((order, step, curve_type, dimension))
}

/// Parse a NURBS curve file.
pub fn parse_curve(data: &[u8], config: &ParseConfig) -> (res: Result<NurbsCurve, Error>)
    ensures
        curve_result(res) == spec_parse_curve(data@, *config),
{
    let mut reader = BinaryReader::new(data);
    let converter_version = reader.read_i32()?;
    let pc = #[verifier::truncate] (reader.read_i32()? as usize);
    if pc > config.limits.max_vertices_per_frame {
        return Err(Error::ResourceLimitExceeded {
            field: "curve.control_points",
            count: pc,
            max: config.limits.max_vertices_per_frame,
        });
    }
    let control_points = read_points(&mut reader, pc)?;
    let kc = #[verifier::truncate] (reader.read_i32()? as usize);
    if kc > config.limits.max_vertices_per_frame {
        return Err(Error::ResourceLimitExceeded {
            field: "curve.knots",
            count: kc,
            max: config.limits.max_vertices_per_frame,
        });
    }
    let knots = reader.read_u64_seq(kc)?;
    let t = read_curve_tail(&mut reader)?;
    Ok(NurbsCurve {
        converter_version,
        control_points,
        knots,
        order: t.0,
        step: t.1,
        curve_type: t.2,
        dimension: t.3,
    })
}

} // verus!
