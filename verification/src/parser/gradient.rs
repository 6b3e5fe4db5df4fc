//! Gradient binary loading (variable-length).

use vstd::prelude::*;

use crate::error::Error;
use crate::reader::{chain, lemma_repeat_err, lemma_repeat_len, pr, prv, sp_i32, sp_repeat, sp_u32, BinaryReader, PR};
use crate::types::gradient::{Gradient, GradientAlphaKey, GradientColorKey, SpecGradient};

verus! {

/// A key count clamped to `0..=8`.
pub open spec fn clamp_keys(v: i32) -> nat {
    if v < 0 {
        0
    } else if v > 8 {
        8
    } else {
        v as nat
    }
}

/// A color key: position, r, g, b, intensity.
pub open spec fn sp_color_key(d: Seq<u8>, p: int) -> PR<GradientColorKey> {
    chain(sp_u32(d, p), |position: u32, p: int|
    chain(sp_u32(d, p), |r: u32, p: int|
    chain(sp_u32(d, p), |g: u32, p: int|
    chain(sp_u32(d, p), |b: u32, p: int|
    chain(sp_u32(d, p), |intensity: u32, p: int|
    Ok((GradientColorKey { position, r, g, b, intensity }, p)))))))
}

/// An alpha key: position, alpha.
pub open spec fn sp_alpha_key(d: Seq<u8>, p: int) -> PR<GradientAlphaKey> {
    chain(sp_u32(d, p), |position: u32, p: int|
    chain(sp_u32(d, p), |alpha: u32, p: int|
    Ok((GradientAlphaKey { position, alpha }, p))))
}

/// Reading one color key, as an item of a repetition.
pub open spec fn color_key_item(d: Seq<u8>) -> spec_fn(int) -> PR<GradientColorKey> {
    |p: int| sp_color_key(d, p)
}

/// Reading one alpha key, as an item of a repetition.
pub open spec fn alpha_key_item(d: Seq<u8>) -> spec_fn(int) -> PR<GradientAlphaKey> {
    |p: int| sp_alpha_key(d, p)
}

/// A gradient: color count (clamped to 8), color keys, alpha count (clamped
/// to 8), alpha keys.
pub open spec fn sp_gradient(d: Seq<u8>, p: int) -> PR<SpecGradient> {
    chain(sp_i32(d, p), |cc: i32, p: int|
    chain(sp_repeat(clamp_keys(cc), p, color_key_item(d)), |colors: Seq<GradientColorKey>, p: int|
    chain(sp_i32(d, p), |ac: i32, p: int|
    chain(sp_repeat(clamp_keys(ac), p, alpha_key_item(d)), |alphas: Seq<GradientAlphaKey>, p: int|
    Ok((SpecGradient { colors, alphas }, p))))))
}

/// Clamp a key count to `0..=8`.
fn clamp_count(v: i32) -> (n: usize)
    ensures
        n == clamp_keys(v),
{
    if v < 0 {
        0
    } else if v > 8 {
        8
    } else {
        v as usize
    }
}

fn read_color_key(reader: &mut BinaryReader) -> (res: Result<GradientColorKey, Error>)
    ensures
        final(reader).data() == old(reader).data(),
        final(reader).pos() >= old(reader).pos(),
        pr(res, final(reader).pos()) == sp_color_key(old(reader).data(), old(reader).pos()),
{
    let position = reader.read_f32()?;
    let r = reader.read_f32()?;
    let g = reader.read_f32()?;
    let b = reader.read_f32()?;
    let intensity = reader.read_f32()?;
    Ok(GradientColorKey { position, r, g, b, intensity })
}

fn read_alpha_key(reader: &mut BinaryReader) -> (res: Result<GradientAlphaKey, Error>)
    ensures
        final(reader).data() == old(reader).data(),
        final(reader).pos() >= old(reader).pos(),
        pr(res, final(reader).pos()) == sp_alpha_key(old(reader).data(), old(reader).pos()),
{
    let position = reader.read_f32()?;
    let alpha = reader.read_f32()?;
    Ok(GradientAlphaKey { position, alpha })
}

/// Read a Gradient from the binary stream (variable-length).
///
/// Binary format:
/// - `ColorCount` (i32, clamped to `0..=8`)
/// - `ColorKey[ColorCount]` (20 bytes each: Position, Color[3], Intensity)
/// - `AlphaCount` (i32, clamped to `0..=8`)
/// - `AlphaKey[AlphaCount]` (8 bytes each: Position, Alpha)
#[verifier::loop_isolation(false)]
pub fn parse_gradient(reader: &mut BinaryReader) -> (res: Result<Gradient, Error>)
    ensures
        final(reader).data() == old(reader).data(),
        final(reader).pos() >= old(reader).pos(),
        prv(res, final(reader).pos()) == sp_gradient(old(reader).data(), old(reader).pos()),
{
    let ghost d = reader.data();
    let color_count = clamp_count(reader.read_i32()?);
    let ghost p1 = reader.pos();
    let mut colors: Vec<GradientColorKey> = Vec::new();
    let mut i: usize = 0;
    while i < color_count
        invariant
            reader.data() == d,
            reader.pos() >= p1,
            i <= color_count,
            sp_repeat(i as nat, p1, color_key_item(d)) == Ok::<(Seq<GradientColorKey>, int), Error>(
                (colors@, reader.pos()),
            ),
        decreases color_count - i,
    {
        let k = match read_color_key(reader) {
            Ok(k) => k,
            Err(e) => {
                proof {
                    lemma_repeat_err((i + 1) as nat, color_count as nat, p1, color_key_item(d));
                }
                return Err(e);
            },
        };
        colors.push(k);
        i = i + 1;
    }
    let alpha_count = clamp_count(reader.read_i32()?);
    let ghost p2 = reader.pos();
    let mut alphas: Vec<GradientAlphaKey> = Vec::new();
    let mut j: usize = 0;
    while j < alpha_count
        invariant
            reader.data() == d,
            reader.pos() >= p2,
            j <= alpha_count,
            sp_repeat(j as nat, p2, alpha_key_item(d)) == Ok::<(Seq<GradientAlphaKey>, int), Error>(
                (alphas@, reader.pos()),
            ),
        decreases alpha_count - j,
    {
        let k = match read_alpha_key(reader) {
            Ok(k) => k,
            Err(e) => {
                proof {
                    lemma_repeat_err((j + 1) as nat, alpha_count as nat, p2, alpha_key_item(d));
                }
                return Err(e);
            },
        };
        alphas.push(k);
        j = j + 1;
    }
    Ok(Gradient { colors, alphas })
}

/// Law: a gradient that parses holds at most eight color keys and at most
/// eight alpha keys, whatever counts the data declares.
pub proof fn lemma_gradient_at_most_eight_keys(d: Seq<u8>, p: int)
    requires
        sp_gradient(d, p) is Ok,
    ensures
        sp_gradient(d, p)->Ok_0.0.colors.len() <= 8,
        sp_gradient(d, p)->Ok_0.0.alphas.len() <= 8,
{
    let (cc, p1) = sp_i32(d, p)->Ok_0;
    lemma_repeat_len(clamp_keys(cc), p1, color_key_item(d));
    let (colors, p2) = sp_repeat(clamp_keys(cc), p1, color_key_item(d))->Ok_0;
    let (ac, p3) = sp_i32(d, p2)->Ok_0;
    lemma_repeat_len(clamp_keys(ac), p3, alpha_key_item(d));
}

} // verus!
