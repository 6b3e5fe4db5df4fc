//! Binary reader utility for parsing Effekseer files.
//!
//! All reads are little-endian. The reader wraps a `&[u8]` with position tracking.
//!
//! Every read is specified by a function from the buffer and a start position to
//! a parse outcome ([`PR`]): the value read and the position after it, or the
//! error the read reports. Composite formats are specified by chaining these
//! outcomes with [`chain`].

use vstd::prelude::*;

use crate::config::{ParseConfig, UnknownEnumBehavior};
use crate::error::Error;
use crate::types::enums::{ColorMode, TriggerType};
use crate::types::primitives::{
    Color, EasingColor, EasingFloat, EasingVector2D, EasingVector3D, RandomColor, RandomFloat,
    RandomInt, RandomVector2D, RandomVector3D, Rectf, RefMinMax, TriggerValues, Vector2D,
    Vector3D,
};

verus! {

/// Implemented by all code enums: conversion from the raw code, and whether a
/// value holds a code this library does not know.
pub trait IsUnknown: Sized {
    /// The value a raw code stands for.
    spec fn spec_from_code(raw: i32) -> Self;

    /// Convert a raw code.
    fn from_code(raw: i32) -> (r: Self)
        ensures
            r == Self::spec_from_code(raw),
    ;

    /// Whether this value holds an unknown code.
    spec fn spec_is_unknown(&self) -> bool;

    /// Returns `true` if this value is an `Unknown` variant.
    fn is_unknown(&self) -> (b: bool)
        ensures
            b == self.spec_is_unknown(),
    ;
}

/// The outcome of parsing at some position: the value and the position after
/// it, or an error.
pub type PR<T> = Result<(T, int), Error>;

/// The outcome that an executable result and the reader's final position stand for.
pub open spec fn pr<T>(res: Result<T, Error>, pos: int) -> PR<T> {
    match res {
        Ok(v) => Ok((v, pos)),
        Err(e) => Err(e),
    }
}

/// Like [`pr`], for values that are described by their view.
pub open spec fn prv<T: View>(res: Result<T, Error>, pos: int) -> PR<T::V> {
    match res {
        Ok(v) => Ok((v@, pos)),
        Err(e) => Err(e),
    }
}

/// The model of an optional vector.
pub open spec fn opt_seq<T>(o: Option<Vec<T>>) -> Option<Seq<T>> {
    match o {
        Some(v) => Some(v@),
        None => None,
    }
}

/// Like [`pr`], for optional vectors, described by [`opt_seq`].
pub open spec fn pro<T>(res: Result<Option<Vec<T>>, Error>, pos: int) -> PR<Option<Seq<T>>> {
    match res {
        Ok(v) => Ok((opt_seq(v), pos)),
        Err(e) => Err(e),
    }
}

/// Sequencing: run `f` on the value and position of a successful outcome.
pub open spec fn chain<A, B>(r: PR<A>, f: spec_fn(A, int) -> PR<B>) -> PR<B> {
    match r {
        Ok((a, q)) => f(a, q),
        Err(e) => Err(e),
    }
}

/// The error reported when `n` bytes are needed at position `p` but are missing.
pub open spec fn eof(p: int, n: int) -> Error {
    Error::UnexpectedEof { position: p as usize, expected_bytes: n as usize }
}

/// Read `n` raw bytes at `p`.
pub open spec fn sp_bytes(d: Seq<u8>, p: int, n: int) -> PR<Seq<u8>> {
    if p + n <= d.len() {
        Ok((d.subrange(p, p + n), p + n))
    } else {
        Err(eof(p, n))
    }
}

/// Little-endian `u16` at `p`.
pub open spec fn le16(d: Seq<u8>, p: int) -> u16 {
    (d[p] as int + 256 * (d[p + 1] as int)) as u16
}

/// Little-endian `u32` at `p`.
pub open spec fn le32(d: Seq<u8>, p: int) -> u32 {
    (d[p] as int + 256 * (d[p + 1] as int) + 65536 * (d[p + 2] as int) + 16777216 * (
    d[p + 3] as int)) as u32
}

/// Little-endian `u64` at `p`.
pub open spec fn le64(d: Seq<u8>, p: int) -> u64 {
    (le32(d, p) as int + 4294967296 * (le32(d, p + 4) as int)) as u64
}

/// The four little-endian bytes of a `u32`.
pub open spec fn u32_le_bytes(x: u32) -> Seq<u8> {
    seq![(x & 0xff) as u8, ((x >> 8u32) & 0xff) as u8, ((x >> 16u32) & 0xff) as u8, ((x >> 24u32) & 0xff) as u8]
}

/// Law: reading a `u32` from its four little-endian bytes gives it back, and
/// reading an `i32` from the bytes of its bit pattern gives it back; both reads
/// take those four bytes.
pub proof fn lemma_u32_i32_round_trip(x: u32, y: i32)
    ensures
        sp_u32(u32_le_bytes(x), 0) == Ok::<(u32, int), Error>((x, 4)),
        sp_i32(u32_le_bytes(y as u32), 0) == Ok::<(i32, int), Error>((y, 4)),
{
    lemma_le32_of_bytes(x);
    lemma_le32_of_bytes(y as u32);
    assert((y as u32) as i32 == y) by (bit_vector);
}

/// The little-endian reading of the four bytes of `x` is `x`.
proof fn lemma_le32_of_bytes(x: u32)
    ensures
        le32(u32_le_bytes(x), 0) == x,
{
    let b = u32_le_bytes(x);
    assert(x & 0xff < 256 && (x >> 8u32) & 0xff < 256 && (x >> 16u32) & 0xff < 256 && (x >> 24u32) & 0xff < 256)
        by (bit_vector);
    assert(x == (x & 0xff) + 256 * ((x >> 8u32) & 0xff) + 65536 * ((x >> 16u32) & 0xff) + 16777216 * ((x >> 24u32)
        & 0xff)) by (bit_vector);
    assert(b[0] == x & 0xff);
    assert(b[1] == (x >> 8u32) & 0xff);
    assert(b[2] == (x >> 16u32) & 0xff);
    assert(b[3] == (x >> 24u32) & 0xff);
}

/// Law: an `i32` read and a `u32` read at the same place take the same bytes,
/// and the `i32` is the `u32`'s bit pattern.
pub proof fn lemma_i32_is_u32_bits(d: Seq<u8>, p: int)
    ensures
        sp_i32(d, p) is Ok <==> sp_u32(d, p) is Ok,
        sp_u32(d, p) matches Ok((v, q)) ==> sp_i32(d, p) == Ok::<(i32, int), Error>((v as i32, q)),
        sp_u32(d, p) is Err ==> sp_i32(d, p) == Err::<(i32, int), Error>(sp_u32(d, p)->Err_0),
{
}

/// Read a byte.
pub open spec fn sp_u8(d: Seq<u8>, p: int) -> PR<u8> {
    if p + 1 <= d.len() {
        Ok((d[p], p + 1))
    } else {
        Err(eof(p, 1))
    }
}

/// Read a little-endian `u16`.
pub open spec fn sp_u16(d: Seq<u8>, p: int) -> PR<u16> {
    if p + 2 <= d.len() {
        Ok((le16(d, p), p + 2))
    } else {
        Err(eof(p, 2))
    }
}

/// Read a little-endian `u32`.
pub open spec fn sp_u32(d: Seq<u8>, p: int) -> PR<u32> {
    if p + 4 <= d.len() {
        Ok((le32(d, p), p + 4))
    } else {
        Err(eof(p, 4))
    }
}

/// Read a little-endian `i32` (two's complement).
pub open spec fn sp_i32(d: Seq<u8>, p: int) -> PR<i32> {
    if p + 4 <= d.len() {
        Ok((le32(d, p) as i32, p + 4))
    } else {
        Err(eof(p, 4))
    }
}

/// Read a little-endian `u64`.
pub open spec fn sp_u64(d: Seq<u8>, p: int) -> PR<u64> {
    if p + 8 <= d.len() {
        Ok((le64(d, p), p + 8))
    } else {
        Err(eof(p, 8))
    }
}

/// Read an `i32` as a `bool` (non-zero is `true`).
pub open spec fn sp_bool(d: Seq<u8>, p: int) -> PR<bool> {
    chain(sp_i32(d, p), |v: i32, q: int| Ok((v != 0, q)))
}

/// Accept or reject an enum value under the configured policy.
pub open spec fn enum_check<T: IsUnknown>(v: T, raw: i32, cfg: ParseConfig, field: &'static str, q: int) -> PR<T> {
    if v.spec_is_unknown() && cfg.unknown_enum_behavior == UnknownEnumBehavior::Error {
        Err(Error::InvalidEnumValue { field: field, value: raw })
    } else {
        Ok((v, q))
    }
}

/// Read an `i32` enum code.
pub open spec fn sp_enum<T: IsUnknown>(d: Seq<u8>, p: int, cfg: ParseConfig, field: &'static str) -> PR<T> {
    chain(sp_i32(d, p), |raw: i32, q: int| enum_check(T::spec_from_code(raw), raw, cfg, field, q))
}

/// Read a `u8` enum code.
pub open spec fn sp_enum_u8<T: IsUnknown>(d: Seq<u8>, p: int, cfg: ParseConfig, field: &'static str) -> PR<T> {
    chain(
        sp_u8(d, p),
        |raw: u8, q: int| enum_check(T::spec_from_code(raw as i32), raw as i32, cfg, field, q),
    )
}

/// Read `n` items one after another with `item`.
pub open spec fn sp_repeat<T>(n: nat, p: int, item: spec_fn(int) -> PR<T>) -> PR<Seq<T>>
    decreases n,
{
    if n == 0 {
        Ok((Seq::empty(), p))
    } else {
        chain(
            sp_repeat((n - 1) as nat, p, item),
            |xs: Seq<T>, q: int| chain(item(q), |x: T, q2: int| Ok((xs.push(x), q2))),
        )
    }
}

/// Once reading a prefix of a repetition fails, the whole repetition fails the same way.
pub proof fn lemma_repeat_err<T>(i: nat, n: nat, p: int, item: spec_fn(int) -> PR<T>)
    requires
        i <= n,
        sp_repeat(i, p, item) is Err,
    ensures
        sp_repeat(n, p, item) == sp_repeat(i, p, item),
    decreases n - i,
{
    if i < n {
        lemma_repeat_err(i, (n - 1) as nat, p, item);
    }
}

/// A repetition that succeeds reads exactly `n` items.
pub proof fn lemma_repeat_len<T>(n: nat, p: int, item: spec_fn(int) -> PR<T>)
    requires
        sp_repeat(n, p, item) is Ok,
    ensures
        sp_repeat(n, p, item)->Ok_0.0.len() == n,
    decreases n,
{
    if n > 0 {
        lemma_repeat_len((n - 1) as nat, p, item);
    }
}

/// When every item that reads successfully satisfies `pred`, so does every
/// item of a repetition that reads successfully.
pub proof fn lemma_repeat_all<T>(n: nat, p: int, item: spec_fn(int) -> PR<T>, pred: spec_fn(T) -> bool)
    requires
        sp_repeat(n, p, item) is Ok,
        forall|q: int| #[trigger] item(q) is Ok ==> pred(item(q)->Ok_0.0),
    ensures
        forall|i: int| 0 <= i < sp_repeat(n, p, item)->Ok_0.0.len() ==> pred(#[trigger] sp_repeat(n, p, item)->Ok_0.0[i]),
    decreases n,
{
    if n > 0 {
        lemma_repeat_all((n - 1) as nat, p, item, pred);
        let (xs, q) = sp_repeat((n - 1) as nat, p, item)->Ok_0;
        assert(item(q) is Ok);
    }
}

/// When every item that reads successfully at `q` yields `f(q)` and takes
/// `size` bytes, a repetition that reads successfully yields `f` at `p`,
/// `p + size`, `p + 2 * size`, ... and ends `n * size` bytes after `p`.
pub proof fn lemma_repeat_fixed<T>(n: nat, p: int, item: spec_fn(int) -> PR<T>, size: nat, f: spec_fn(int) -> T)
    requires
        sp_repeat(n, p, item) is Ok,
        forall|q: int| #[trigger] item(q) is Ok ==> item(q) == Ok::<(T, int), Error>((f(q), q + size)),
    ensures
        sp_repeat(n, p, item)->Ok_0.0.len() == n,
        sp_repeat(n, p, item)->Ok_0.1 == p + n * size,
        forall|i: int| 0 <= i < n ==> #[trigger] sp_repeat(n, p, item)->Ok_0.0[i] == f(p + i * size),
    decreases n,
{
    if n > 0 {
        lemma_repeat_fixed((n - 1) as nat, p, item, size, f);
        let (xs, q) = sp_repeat((n - 1) as nat, p, item)->Ok_0;
        assert(item(q) is Ok);
        assert(p + (n - 1) * size + size == p + n * size) by (nonlinear_arith);
    }
}

/// The [`Vector3D`] of three little-endian `u32` at `p`.
pub open spec fn vec3_at(d: Seq<u8>, p: int) -> Vector3D {
    Vector3D { x: le32(d, p), y: le32(d, p + 4), z: le32(d, p + 8) }
}

/// The [`Vector2D`] of two little-endian `u32` at `p`.
pub open spec fn vec2_at(d: Seq<u8>, p: int) -> Vector2D {
    Vector2D { x: le32(d, p), y: le32(d, p + 4) }
}

/// Law: under the strict policy an enum read never yields an unknown value; a
/// code this library does not know is rejected with `InvalidEnumValue`, naming
/// the field and the raw code.
pub proof fn lemma_strict_enum<T: IsUnknown>(d: Seq<u8>, p: int, cfg: ParseConfig, field: &'static str)
    requires
        cfg.unknown_enum_behavior == UnknownEnumBehavior::Error,
        p + 4 <= d.len(),
    ensures
        sp_enum::<T>(d, p, cfg, field) is Ok ==> !sp_enum::<T>(d, p, cfg, field)->Ok_0.0.spec_is_unknown(),
        T::spec_from_code(le32(d, p) as i32).spec_is_unknown() ==> sp_enum::<T>(d, p, cfg, field)
            == Err::<(T, int), Error>(Error::InvalidEnumValue { field, value: le32(d, p) as i32 }),
{
}

/// Law: under a lenient policy an enum read fails only for want of bytes; an
/// unknown code is kept as it is.
pub proof fn lemma_lenient_enum<T: IsUnknown>(d: Seq<u8>, p: int, cfg: ParseConfig, field: &'static str)
    requires
        cfg.unknown_enum_behavior != UnknownEnumBehavior::Error,
        p + 4 <= d.len(),
    ensures
        sp_enum::<T>(d, p, cfg, field) == Ok::<(T, int), Error>((T::spec_from_code(le32(d, p) as i32), p + 4)),
{
}

/// After a block that began at `start` and declared `size` bytes was read up to
/// `q`: skip the bytes of the block that were not read.
pub open spec fn sp_skip_rest(d: Seq<u8>, start: int, size: usize, q: int) -> PR<()> {
    if size > q - start {
        chain(sp_bytes(d, q, size - (q - start)), |b: Seq<u8>, q2: int| Ok(((), q2)))
    } else {
        Ok(((), q))
    }
}

/// A block that begins at `start` and declares `size` bytes, whose contents
/// read as `inner`: the bytes of the block that `inner` does not read are skipped.
pub open spec fn sp_sized<T>(d: Seq<u8>, start: int, size: usize, inner: PR<T>) -> PR<T> {
    chain(inner, |v: T, q: int| chain(sp_skip_rest(d, start, size, q), |u: (), q2: int| Ok((v, q2))))
}

/// Read a [`Vector2D`].
pub open spec fn sp_vector2d(d: Seq<u8>, p: int) -> PR<Vector2D> {
    chain(sp_u32(d, p), |x: u32, p: int| chain(sp_u32(d, p), |y: u32, p: int| Ok((Vector2D { x, y }, p))))
}

/// Read a [`Vector3D`].
pub open spec fn sp_vector3d(d: Seq<u8>, p: int) -> PR<Vector3D> {
    chain(sp_u32(d, p), |x: u32, p: int|
    chain(sp_u32(d, p), |y: u32, p: int|
    chain(sp_u32(d, p), |z: u32, p: int|
    Ok((Vector3D { x, y, z }, p)))))
}

/// Read a [`Rectf`].
pub open spec fn sp_rectf(d: Seq<u8>, p: int) -> PR<Rectf> {
    chain(sp_u32(d, p), |x: u32, p: int|
    chain(sp_u32(d, p), |y: u32, p: int|
    chain(sp_u32(d, p), |w: u32, p: int|
    chain(sp_u32(d, p), |h: u32, p: int|
    Ok((Rectf { x, y, w, h }, p))))))
}

/// Read a [`Color`].
pub open spec fn sp_color(d: Seq<u8>, p: int) -> PR<Color> {
    chain(sp_u8(d, p), |r: u8, p: int|
    chain(sp_u8(d, p), |g: u8, p: int|
    chain(sp_u8(d, p), |b: u8, p: int|
    chain(sp_u8(d, p), |a: u8, p: int|
    Ok((Color { r, g, b, a }, p))))))
}

/// Read a [`RandomFloat`] (max before min).
pub open spec fn sp_random_float(d: Seq<u8>, p: int) -> PR<RandomFloat> {
    chain(sp_u32(d, p), |max: u32, p: int|
    chain(sp_u32(d, p), |min: u32, p: int|
    Ok((RandomFloat { max, min }, p))))
}

/// Read a [`RandomInt`] (max before min).
pub open spec fn sp_random_int(d: Seq<u8>, p: int) -> PR<RandomInt> {
    chain(sp_i32(d, p), |max: i32, p: int|
    chain(sp_i32(d, p), |min: i32, p: int|
    Ok((RandomInt { max, min }, p))))
}

/// Read a [`RandomVector2D`] (max before min).
pub open spec fn sp_random_vector2d(d: Seq<u8>, p: int) -> PR<RandomVector2D> {
    chain(sp_vector2d(d, p), |max: Vector2D, p: int|
    chain(sp_vector2d(d, p), |min: Vector2D, p: int|
    Ok((RandomVector2D { max, min }, p))))
}

/// Read a [`RandomVector3D`] (max before min).
pub open spec fn sp_random_vector3d(d: Seq<u8>, p: int) -> PR<RandomVector3D> {
    chain(sp_vector3d(d, p), |max: Vector3D, p: int|
    chain(sp_vector3d(d, p), |min: Vector3D, p: int|
    Ok((RandomVector3D { max, min }, p))))
}

/// Read a [`RandomColor`]: mode byte, padding byte, max, min.
pub open spec fn sp_random_color(d: Seq<u8>, p: int, cfg: ParseConfig) -> PR<RandomColor> {
    chain(sp_enum_u8::<ColorMode>(d, p, cfg, "RandomColor.mode"), |mode: ColorMode, p: int|
    chain(sp_u8(d, p), |_pad: u8, p: int|
    chain(sp_color(d, p), |max: Color, p: int|
    chain(sp_color(d, p), |min: Color, p: int|
    Ok((RandomColor { mode, max, min }, p))))))
}

/// Read a [`RefMinMax`] (max before min).
pub open spec fn sp_ref_min_max(d: Seq<u8>, p: int) -> PR<RefMinMax> {
    chain(sp_i32(d, p), |max: i32, p: int|
    chain(sp_i32(d, p), |min: i32, p: int|
    Ok((RefMinMax { max, min }, p))))
}

/// Read a [`TriggerValues`] (type byte, index byte).
pub open spec fn sp_trigger_values(d: Seq<u8>, p: int, cfg: ParseConfig) -> PR<TriggerValues> {
    chain(sp_enum_u8::<TriggerType>(d, p, cfg, "TriggerValues.type"), |type_: TriggerType, p: int|
    chain(sp_u8(d, p), |index: u8, p: int|
    Ok((TriggerValues { type_, index }, p))))
}

/// Read an [`EasingFloat`].
pub open spec fn sp_easing_float(d: Seq<u8>, p: int) -> PR<EasingFloat> {
    chain(sp_random_float(d, p), |start: RandomFloat, p: int|
    chain(sp_random_float(d, p), |end: RandomFloat, p: int|
    chain(sp_u32(d, p), |a: u32, p: int|
    chain(sp_u32(d, p), |b: u32, p: int|
    chain(sp_u32(d, p), |c: u32, p: int|
    Ok((EasingFloat { start, end, a, b, c }, p)))))))
}

/// Read an [`EasingVector2D`].
pub open spec fn sp_easing_vector2d(d: Seq<u8>, p: int) -> PR<EasingVector2D> {
    chain(sp_random_vector2d(d, p), |start: RandomVector2D, p: int|
    chain(sp_random_vector2d(d, p), |end: RandomVector2D, p: int|
    chain(sp_u32(d, p), |a: u32, p: int|
    chain(sp_u32(d, p), |b: u32, p: int|
    chain(sp_u32(d, p), |c: u32, p: int|
    Ok((EasingVector2D { start, end, a, b, c }, p)))))))
}

/// Read an [`EasingVector3D`].
pub open spec fn sp_easing_vector3d(d: Seq<u8>, p: int) -> PR<EasingVector3D> {
    chain(sp_random_vector3d(d, p), |start: RandomVector3D, p: int|
    chain(sp_random_vector3d(d, p), |end: RandomVector3D, p: int|
    chain(sp_u32(d, p), |a: u32, p: int|
    chain(sp_u32(d, p), |b: u32, p: int|
    chain(sp_u32(d, p), |c: u32, p: int|
    Ok((EasingVector3D { start, end, a, b, c }, p)))))))
}

/// Read an [`EasingColor`].
pub open spec fn sp_easing_color(d: Seq<u8>, p: int, cfg: ParseConfig) -> PR<EasingColor> {
    chain(sp_random_color(d, p, cfg), |start: RandomColor, p: int|
    chain(sp_random_color(d, p, cfg), |end: RandomColor, p: int|
    chain(sp_u32(d, p), |a: u32, p: int|
    chain(sp_u32(d, p), |b: u32, p: int|
    chain(sp_u32(d, p), |c: u32, p: int|
    Ok((EasingColor { start, end, a, b, c }, p)))))))
}

/// Code units with trailing zero units removed.
pub open spec fn trim_trailing_zeros(units: Seq<u16>) -> Seq<u16>
    decreases units.len(),
{
    if units.len() > 0 && units.last() == 0 {
        trim_trailing_zeros(units.drop_last())
    } else {
        units
    }
}

/// UTF-16 decoding: the characters that the code units encode, or `None` when
/// they hold an unpaired surrogate.
pub open spec fn utf16_decode(units: Seq<u16>) -> Option<Seq<char>>
    decreases units.len(),
{
    if units.len() == 0 {
        Some(Seq::empty())
    } else {
        let u = units[0];
        if u < 0xD800 || u > 0xDFFF {
            match utf16_decode(units.drop_first()) {
                Some(rest) => Some(seq![u as char] + rest),
                None => None,
            }
        } else if u <= 0xDBFF && units.len() >= 2 && 0xDC00 <= units[1] <= 0xDFFF {
            let c = 0x10000 + (u - 0xD800) * 1024 + (units[1] - 0xDC00);
            match utf16_decode(units.subrange(2, units.len() as int)) {
                Some(rest) => Some(seq![c as char] + rest),
                None => None,
            }
        } else {
            None
        }
    }
}

/// Reading one `u16`, as an item of a repetition.
pub open spec fn u16_item(d: Seq<u8>) -> spec_fn(int) -> PR<u16> {
    |r: int| sp_u16(d, r)
}

/// Reading one `u32`, as an item of a repetition.
pub open spec fn u32_item(d: Seq<u8>) -> spec_fn(int) -> PR<u32> {
    |r: int| sp_u32(d, r)
}

/// Reading one `u64`, as an item of a repetition.
pub open spec fn u64_item(d: Seq<u8>) -> spec_fn(int) -> PR<u64> {
    |r: int| sp_u64(d, r)
}

/// Reading one `i32` enum code, as an item of a repetition.
pub open spec fn enum_item<T: IsUnknown>(d: Seq<u8>, cfg: ParseConfig, field: &'static str) -> spec_fn(int) -> PR<T> {
    |r: int| sp_enum::<T>(d, r, cfg, field)
}

/// Read a UTF-16LE string: `length: i32` (code units), then the units. Trailing
/// NUL characters are dropped.
pub open spec fn sp_utf16_string(d: Seq<u8>, p: int) -> PR<Seq<char>> {
    chain(sp_i32(d, p), |length: i32, q: int|
    chain(sp_repeat(length as usize as nat, q, u16_item(d)), |units: Seq<u16>, q2: int|
        match utf16_decode(trim_trailing_zeros(units)) {
            Some(cs) => Ok((cs, q2)),
            None => Err(Error::Utf16DecodeError { position: q as usize }),
        }))
}

/// Read a UTF-8 string: `length: i32` (bytes), then the bytes.
pub open spec fn sp_ascii_string(d: Seq<u8>, p: int) -> PR<Seq<char>> {
    chain(sp_i32(d, p), |length: i32, q: int|
    chain(sp_bytes(d, q, length as usize as int), |bytes: Seq<u8>, q2: int|
        if vstd::utf8::valid_utf8(bytes) {
            Ok((vstd::utf8::decode_utf8(bytes), q2))
        } else {
            Err(Error::Utf8DecodeError { position: q as usize })
        }))
}

/// UTF-16 decoding with `String::from_utf16`.
#[verifier::external_body]
fn string_from_utf16(units: &[u16]) -> (res: Option<String>)
    ensures
        match res {
            Some(s) => utf16_decode(units@) == Some(s@),
            None => utf16_decode(units@) is None,
        },
{
    String::from_utf16(units).ok()
}

/// UTF-8 decoding with `std::str::from_utf8`.
#[verifier::external_body]
pub(crate) fn string_from_utf8(bytes: &[u8]) -> (res: Option<String>)
    ensures
        match res {
            Some(s) => vstd::utf8::valid_utf8(bytes@) && s@ == vstd::utf8::decode_utf8(bytes@),
            None => !vstd::utf8::valid_utf8(bytes@),
        },
{
    match std::str::from_utf8(bytes) {
        Ok(s) => Some(s.to_string()),
        Err(_) => None,
    }
}

/// A cursor-based binary reader for little-endian data.
pub struct BinaryReader<'a> {
    data: &'a [u8],
    pos: usize,
}

impl<'a> BinaryReader<'a> {
    #[verifier::type_invariant]
    spec fn inv(&self) -> bool {
        self.pos <= self.data@.len()
    }

    /// The bytes being read.
    pub closed spec fn data(&self) -> Seq<u8> {
        self.data@
    }

    /// The current position.
    pub closed spec fn pos(&self) -> int {
        self.pos as int
    }

    /// A position is never negative.
    pub broadcast proof fn lemma_pos_nonneg(r: &BinaryReader)
        ensures
            #[trigger] r.pos() >= 0,
    {
    }

    /// Create a new reader over the given byte slice.
    pub fn new(data: &'a [u8]) -> (r: Self)
        ensures
            r.data() == data@,
            r.pos() == 0,
    {
        Self { data, pos: 0 }
    }

    /// Current read position in the buffer.
    pub fn position(&self) -> (p: usize)
        ensures
            p == self.pos(),
            p <= self.data().len(),
            self.data().len() <= usize::MAX,
    {
        proof {
            use_type_invariant(self);
        }
        let _n = self.data.len();
        self.pos
    }

    /// Number of bytes remaining after the current position.
    pub fn remaining(&self) -> (n: usize)
        ensures
            n == self.data().len() - self.pos(),
    {
        proof {
            use_type_invariant(self);
        }
        self.data.len() - self.pos
    }

    /// Total length of the underlying buffer.
    pub fn len(&self) -> (n: usize)
        ensures
            n == self.data().len(),
    {
        self.data.len()
    }

    /// Returns `true` if the underlying buffer is empty.
    pub fn is_empty(&self) -> (b: bool)
        ensures
            b == (self.data().len() == 0),
    {
        self.data.len() == 0
    }

    /// Skip `n` bytes, advancing the position.
    pub fn skip(&mut self, n: usize) -> (res: Result<(), Error>)
        ensures
            final(self).data() == old(self).data(),
            final(self).pos() >= old(self).pos(),
            res is Err ==> final(self).pos() == old(self).pos(),
            pr(res, final(self).pos()) == chain(
                sp_bytes(old(self).data(), old(self).pos(), n as int),
                |b: Seq<u8>, q: int| Ok(((), q)),
            ),
    {
        proof {
            use_type_invariant(&*self);
        }
        if n > self.data.len() - self.pos {
            return Err(Error::UnexpectedEof { position: self.pos, expected_bytes: n });
        }
        self.pos = self.pos + n;
        Ok(())
    }

    /// Skip what is left of a block that began at `start` and declared `size` bytes.
    pub fn skip_rest(&mut self, start: usize, size: usize) -> (res: Result<(), Error>)
        requires
            start <= old(self).pos(),
        ensures
            final(self).data() == old(self).data(),
            final(self).pos() >= old(self).pos(),
            pr(res, final(self).pos()) == sp_skip_rest(old(self).data(), start as int, size, old(self).pos()),
    {
        let consumed = self.position() - start;
        if size > consumed {
            self.skip(size - consumed)
        } else {
            Ok(())
        }
    }

    /// Read `n` raw bytes from the current position.
    pub fn read_bytes(&mut self, n: usize) -> (res: Result<&'a [u8], Error>)
        ensures
            final(self).data() == old(self).data(),
            final(self).pos() >= old(self).pos(),
            res is Err ==> final(self).pos() == old(self).pos(),
            prv(res, final(self).pos()) == sp_bytes(old(self).data(), old(self).pos(), n as int),
    {
        proof {
            use_type_invariant(&*self);
        }
        if n > self.data.len() - self.pos {
            return Err(Error::UnexpectedEof { position: self.pos, expected_bytes: n });
        }
        let slice = vstd::slice::slice_subrange(self.data, self.pos, self.pos + n);
        self.pos = self.pos + n;
        Ok(slice)
    }

    /// Read a single byte.
    pub fn read_u8(&mut self) -> (res: Result<u8, Error>)
        ensures
            final(self).data() == old(self).data(),
            final(self).pos() >= old(self).pos(),
            res is Err ==> final(self).pos() == old(self).pos(),
            pr(res, final(self).pos()) == sp_u8(old(self).data(), old(self).pos()),
    {
        let bytes = self.read_bytes(1)?;
        Ok(bytes[0])
    }

    /// Read a little-endian `u16`.
    pub fn read_u16(&mut self) -> (res: Result<u16, Error>)
        ensures
            final(self).data() == old(self).data(),
            final(self).pos() >= old(self).pos(),
            res is Err ==> final(self).pos() == old(self).pos(),
            pr(res, final(self).pos()) == sp_u16(old(self).data(), old(self).pos()),
    {
        let bytes = self.read_bytes(2)?;
        Ok(bytes[0] as u16 + 256 * (bytes[1] as u16))
    }

    /// Read a little-endian `i32`.
    pub fn read_i32(&mut self) -> (res: Result<i32, Error>)
        ensures
            final(self).data() == old(self).data(),
            final(self).pos() >= old(self).pos(),
            res is Err ==> final(self).pos() == old(self).pos(),
            pr(res, final(self).pos()) == sp_i32(old(self).data(), old(self).pos()),
    {
        let v = self.read_u32()?;
        Ok(v as i32)
    }

    /// Read a little-endian `u32`.
    pub fn read_u32(&mut self) -> (res: Result<u32, Error>)
        ensures
            final(self).data() == old(self).data(),
            final(self).pos() >= old(self).pos(),
            res is Err ==> final(self).pos() == old(self).pos(),
            pr(res, final(self).pos()) == sp_u32(old(self).data(), old(self).pos()),
    {
        let bytes = self.read_bytes(4)?;
        Ok(bytes[0] as u32 + 256 * (bytes[1] as u32) + 65536 * (bytes[2] as u32) + 16777216 * (
        bytes[3] as u32))
    }

    /// Read a little-endian `f32`, as its bit pattern.
    pub fn read_f32(&mut self) -> (res: Result<u32, Error>)
        ensures
            final(self).data() == old(self).data(),
            final(self).pos() >= old(self).pos(),
            res is Err ==> final(self).pos() == old(self).pos(),
            pr(res, final(self).pos()) == sp_u32(old(self).data(), old(self).pos()),
    {
        self.read_u32()
    }

    /// Read a little-endian `f64`, as its bit pattern.
    pub fn read_f64(&mut self) -> (res: Result<u64, Error>)
        ensures
            final(self).data() == old(self).data(),
            final(self).pos() >= old(self).pos(),
            res is Err ==> final(self).pos() == old(self).pos(),
            pr(res, final(self).pos()) == sp_u64(old(self).data(), old(self).pos()),
    {
        proof {
            use_type_invariant(&*self);
        }
        if 8 > self.data.len() - self.pos {
            return Err(Error::UnexpectedEof { position: self.pos, expected_bytes: 8 });
        }
        let lo = self.read_u32()?;
        let hi = self.read_u32()?;
        Ok(lo as u64 + 4294967296 * (hi as u64))
    }

    /// Read an `i32` and interpret as `bool` (non-zero = `true`).
    pub fn read_i32_as_bool(&mut self) -> (res: Result<bool, Error>)
        ensures
            final(self).data() == old(self).data(),
            final(self).pos() >= old(self).pos(),
            res is Err ==> final(self).pos() == old(self).pos(),
            pr(res, final(self).pos()) == sp_bool(old(self).data(), old(self).pos()),
    {
        Ok(self.read_i32()? != 0)
    }

    /// Read an `i32` enum value, converting it with [`IsUnknown::from_code`] and
    /// checking the unknown-value policy.
    pub fn read_enum<T: IsUnknown>(&mut self, config: &ParseConfig, field: &'static str) -> (res: Result<T, Error>)
        ensures
            final(self).data() == old(self).data(),
            final(self).pos() >= old(self).pos(),
            res is Err ==> final(self).pos() == (if old(self).pos() + 4 <= old(self).data().len() {
                old(self).pos() + 4
            } else {
                old(self).pos()
            }),
            pr(res, final(self).pos()) == sp_enum::<T>(old(self).data(), old(self).pos(), *config, field),
    {
        let raw = self.read_i32()?;
        let value = T::from_code(raw);
        if value.is_unknown() {
            match config.unknown_enum_behavior {
                UnknownEnumBehavior::Error => {
                    return Err(Error::InvalidEnumValue { field, value: raw });
                },
                UnknownEnumBehavior::Warn => {},
            }
        }
        Ok(value)
    }

    /// Read a `u8` enum value, converting it with [`IsUnknown::from_code`] and
    /// checking the unknown-value policy.
    pub fn read_enum_u8<T: IsUnknown>(&mut self, config: &ParseConfig, field: &'static str) -> (res: Result<T, Error>)
        ensures
            final(self).data() == old(self).data(),
            final(self).pos() >= old(self).pos(),
            res is Err ==> final(self).pos() == (if old(self).pos() + 1 <= old(self).data().len() {
                old(self).pos() + 1
            } else {
                old(self).pos()
            }),
            pr(res, final(self).pos()) == sp_enum_u8::<T>(old(self).data(), old(self).pos(), *config, field),
    {
        let raw = self.read_u8()?;
        let value = T::from_code(raw as i32);
        if value.is_unknown() {
            match config.unknown_enum_behavior {
                UnknownEnumBehavior::Error => {
                    return Err(Error::InvalidEnumValue { field, value: raw as i32 });
                },
                UnknownEnumBehavior::Warn => {},
            }
        }
        Ok(value)
    }

    /// Read a [`Vector2D`] (x, y).
    pub fn read_vector2d(&mut self) -> (res: Result<Vector2D, Error>)
        ensures
            final(self).data() == old(self).data(),
            final(self).pos() >= old(self).pos(),
            pr(res, final(self).pos()) == sp_vector2d(old(self).data(), old(self).pos()),
    {
        let x = self.read_f32()?;
        let y = self.read_f32()?;
        Ok(Vector2D { x, y })
    }

    /// Read a [`Vector3D`] (x, y, z).
    pub fn read_vector3d(&mut self) -> (res: Result<Vector3D, Error>)
        ensures
            final(self).data() == old(self).data(),
            final(self).pos() >= old(self).pos(),
            pr(res, final(self).pos()) == sp_vector3d(old(self).data(), old(self).pos()),
    {
        let x = self.read_f32()?;
        let y = self.read_f32()?;
        let z = self.read_f32()?;
        Ok(Vector3D { x, y, z })
    }

    /// Read a [`Rectf`] (x, y, w, h).
    pub fn read_rectf(&mut self) -> (res: Result<Rectf, Error>)
        ensures
            final(self).data() == old(self).data(),
            final(self).pos() >= old(self).pos(),
            pr(res, final(self).pos()) == sp_rectf(old(self).data(), old(self).pos()),
    {
        let x = self.read_f32()?;
        let y = self.read_f32()?;
        let w = self.read_f32()?;
        let h = self.read_f32()?;
        Ok(Rectf { x, y, w, h })
    }

    /// Read a [`Color`] (r, g, b, a as u8).
    pub fn read_color(&mut self) -> (res: Result<Color, Error>)
        ensures
            final(self).data() == old(self).data(),
            final(self).pos() >= old(self).pos(),
            pr(res, final(self).pos()) == sp_color(old(self).data(), old(self).pos()),
    {
        let r = self.read_u8()?;
        let g = self.read_u8()?;
        let b = self.read_u8()?;
        let a = self.read_u8()?;
        Ok(Color { r, g, b, a })
    }

    /// Read a [`RandomFloat`] (max before min).
    pub fn read_random_float(&mut self) -> (res: Result<RandomFloat, Error>)
        ensures
            final(self).data() == old(self).data(),
            final(self).pos() >= old(self).pos(),
            pr(res, final(self).pos()) == sp_random_float(old(self).data(), old(self).pos()),
    {
        let max = self.read_f32()?;
        let min = self.read_f32()?;
        Ok(RandomFloat { max, min })
    }

    /// Read a [`RandomInt`] (max, min).
    pub fn read_random_int(&mut self) -> (res: Result<RandomInt, Error>)
        ensures
            final(self).data() == old(self).data(),
            final(self).pos() >= old(self).pos(),
            pr(res, final(self).pos()) == sp_random_int(old(self).data(), old(self).pos()),
    {
        let max = self.read_i32()?;
        let min = self.read_i32()?;
        Ok(RandomInt { max, min })
    }

    /// Read a [`RandomVector2D`] (max, min).
    pub fn read_random_vector2d(&mut self) -> (res: Result<RandomVector2D, Error>)
        ensures
            final(self).data() == old(self).data(),
            final(self).pos() >= old(self).pos(),
            pr(res, final(self).pos()) == sp_random_vector2d(old(self).data(), old(self).pos()),
    {
        let max = self.read_vector2d()?;
        let min = self.read_vector2d()?;
        Ok(RandomVector2D { max, min })
    }

    /// Read a [`RandomVector3D`] (max, min).
    pub fn read_random_vector3d(&mut self) -> (res: Result<RandomVector3D, Error>)
        ensures
            final(self).data() == old(self).data(),
            final(self).pos() >= old(self).pos(),
            pr(res, final(self).pos()) == sp_random_vector3d(old(self).data(), old(self).pos()),
    {
        let max = self.read_vector3d()?;
        let min = self.read_vector3d()?;
        Ok(RandomVector3D { max, min })
    }

    /// Read a [`RandomColor`] (10 bytes: mode u8, pad u8, max, min).
    pub fn read_random_color(&mut self, config: &ParseConfig) -> (res: Result<RandomColor, Error>)
        ensures
            final(self).data() == old(self).data(),
            final(self).pos() >= old(self).pos(),
            pr(res, final(self).pos()) == sp_random_color(old(self).data(), old(self).pos(), *config),
    {
        let mode: ColorMode = self.read_enum_u8(config, "RandomColor.mode")?;
        let _pad = self.read_u8()?;
        let max = self.read_color()?;
        let min = self.read_color()?;
        Ok(RandomColor { mode, max, min })
    }

    /// Read a [`RefMinMax`] (max, min as i32).
    pub fn read_ref_min_max(&mut self) -> (res: Result<RefMinMax, Error>)
        ensures
            final(self).data() == old(self).data(),
            final(self).pos() >= old(self).pos(),
            pr(res, final(self).pos()) == sp_ref_min_max(old(self).data(), old(self).pos()),
    {
        let max = self.read_i32()?;
        let min = self.read_i32()?;
        Ok(RefMinMax { max, min })
    }

    /// Read a [`TriggerValues`] (type as u8, index as u8).
    pub fn read_trigger_values(&mut self, config: &ParseConfig) -> (res: Result<TriggerValues, Error>)
        ensures
            final(self).data() == old(self).data(),
            final(self).pos() >= old(self).pos(),
            pr(res, final(self).pos()) == sp_trigger_values(old(self).data(), old(self).pos(), *config),
    {
        let type_: TriggerType = self.read_enum_u8(config, "TriggerValues.type")?;
        let index = self.read_u8()?;
        Ok(TriggerValues { type_, index })
    }

    /// Read an [`EasingFloat`] (start, end, then a, b, c).
    pub fn read_easing_float(&mut self) -> (res: Result<EasingFloat, Error>)
        ensures
            final(self).data() == old(self).data(),
            final(self).pos() >= old(self).pos(),
            pr(res, final(self).pos()) == sp_easing_float(old(self).data(), old(self).pos()),
    {
        let start = self.read_random_float()?;
        let end = self.read_random_float()?;
        let a = self.read_f32()?;
        let b = self.read_f32()?;
        let c = self.read_f32()?;
        Ok(EasingFloat { start, end, a, b, c })
    }

    /// Read an [`EasingVector2D`].
    pub fn read_easing_vector2d(&mut self) -> (res: Result<EasingVector2D, Error>)
        ensures
            final(self).data() == old(self).data(),
            final(self).pos() >= old(self).pos(),
            pr(res, final(self).pos()) == sp_easing_vector2d(old(self).data(), old(self).pos()),
    {
        let start = self.read_random_vector2d()?;
        let end = self.read_random_vector2d()?;
        let a = self.read_f32()?;
        let b = self.read_f32()?;
        let c = self.read_f32()?;
        Ok(EasingVector2D { start, end, a, b, c })
    }

    /// Read an [`EasingVector3D`].
    pub fn read_easing_vector3d(&mut self) -> (res: Result<EasingVector3D, Error>)
        ensures
            final(self).data() == old(self).data(),
            final(self).pos() >= old(self).pos(),
            pr(res, final(self).pos()) == sp_easing_vector3d(old(self).data(), old(self).pos()),
    {
        let start = self.read_random_vector3d()?;
        let end = self.read_random_vector3d()?;
        let a = self.read_f32()?;
        let b = self.read_f32()?;
        let c = self.read_f32()?;
        Ok(EasingVector3D { start, end, a, b, c })
    }

    /// Read an [`EasingColor`] (start and end are 10-byte random colors, then a, b, c).
    pub fn read_easing_color(&mut self, config: &ParseConfig) -> (res: Result<EasingColor, Error>)
        ensures
            final(self).data() == old(self).data(),
            final(self).pos() >= old(self).pos(),
            pr(res, final(self).pos()) == sp_easing_color(old(self).data(), old(self).pos(), *config),
    {
        let start = self.read_random_color(config)?;
        let end = self.read_random_color(config)?;
        let a = self.read_f32()?;
        let b = self.read_f32()?;
        let c = self.read_f32()?;
        Ok(EasingColor { start, end, a, b, c })
    }

    /// Read a UTF-16LE encoded string.
    ///
    /// Format: `length: i32` (character count), then `length` u16 values.
    /// Trailing NUL characters are removed.
    #[verifier::loop_isolation(false)]
    pub fn read_utf16_string(&mut self) -> (res: Result<String, Error>)
        ensures
            final(self).data() == old(self).data(),
            final(self).pos() >= old(self).pos(),
            prv(res, final(self).pos()) == sp_utf16_string(old(self).data(), old(self).pos()),
    {
        let ghost d = self.data();
        let length = #[verifier::truncate] (self.read_i32()? as usize);
        let start_pos = self.position();
        let mut units: Vec<u16> = Vec::new();
        let mut i: usize = 0;
        while i < length
            invariant
                self.data() == d,
                self.pos() >= start_pos,
                i <= length,
                sp_repeat(i as nat, start_pos as int, u16_item(d)) == Ok::<(Seq<u16>, int), Error>(
                    (units@, self.pos()),
                ),
            decreases length - i,
        {
            let u = match self.read_u16() {
                Ok(u) => u,
                Err(e) => {
                    proof {
                        assert(sp_repeat((i + 1) as nat, start_pos as int, u16_item(d)) == Err::<
                            (Seq<u16>, int),
                            Error,
                        >(e));
                        lemma_repeat_err((i + 1) as nat, length as nat, start_pos as int, u16_item(d));
                    }
                    return Err(e);
                },
            };
            units.push(u);
            i = i + 1;
        }
        let mut end: usize = units.len();
        assert(units@.subrange(0, end as int) =~= units@);
        while end > 0 && units[end - 1] == 0
            invariant
                end <= units.len(),
                trim_trailing_zeros(units@) == trim_trailing_zeros(units@.subrange(0, end as int)),
            decreases end,
        {
            assert(units@.subrange(0, end as int).drop_last() =~= units@.subrange(0, end - 1));
            end = end - 1;
        }
        let trimmed = vstd::slice::slice_subrange(units.as_slice(), 0, end);
        match string_from_utf16(trimmed) {
            Some(s) => Ok(s),
            None => Err(Error::Utf16DecodeError { position: start_pos }),
        }
    }

    /// Read an ASCII/UTF-8 encoded string.
    ///
    /// Format: `length: i32` (byte count), then `length` bytes.
    pub fn read_ascii_string(&mut self) -> (res: Result<String, Error>)
        ensures
            final(self).data() == old(self).data(),
            final(self).pos() >= old(self).pos(),
            prv(res, final(self).pos()) == sp_ascii_string(old(self).data(), old(self).pos()),
    {
        let length = #[verifier::truncate] (self.read_i32()? as usize);
        let start_pos = self.position();
        let bytes = self.read_bytes(length)?;
        match string_from_utf8(bytes) {
            Some(s) => Ok(s),
            None => Err(Error::Utf8DecodeError { position: start_pos }),
        }
    }

    /// Read `count` little-endian `u32` values.
    #[verifier::loop_isolation(false)]
    pub fn read_u32_seq(&mut self, count: usize) -> (res: Result<Vec<u32>, Error>)
        ensures
            final(self).data() == old(self).data(),
            final(self).pos() >= old(self).pos(),
            prv(res, final(self).pos()) == sp_repeat(count as nat, old(self).pos(), u32_item(old(self).data())),
    {
        let ghost d = self.data();
        let ghost p = self.pos();
        let mut out: Vec<u32> = Vec::new();
        let mut i: usize = 0;
        while i < count
            invariant
                self.data() == d,
                self.pos() >= p,
                i <= count,
                sp_repeat(i as nat, p, u32_item(d)) == Ok::<(Seq<u32>, int), Error>((out@, self.pos())),
            decreases count - i,
        {
            let v = match self.read_u32() {
                Ok(v) => v,
                Err(e) => {
                    proof {
                        assert(sp_repeat((i + 1) as nat, p, u32_item(d)) == Err::<(Seq<u32>, int), Error>(e));
                        lemma_repeat_err((i + 1) as nat, count as nat, p, u32_item(d));
                    }
                    return Err(e);
                },
            };
            out.push(v);
            i = i + 1;
        }
        Ok(out)
    }

    /// Read `count` little-endian `u64` values.
    #[verifier::loop_isolation(false)]
    pub fn read_u64_seq(&mut self, count: usize) -> (res: Result<Vec<u64>, Error>)
        ensures
            final(self).data() == old(self).data(),
            final(self).pos() >= old(self).pos(),
            prv(res, final(self).pos()) == sp_repeat(count as nat, old(self).pos(), u64_item(old(self).data())),
    {
        let ghost d = self.data();
        let ghost p = self.pos();
        let mut out: Vec<u64> = Vec::new();
        let mut i: usize = 0;
        while i < count
            invariant
                self.data() == d,
                self.pos() >= p,
                i <= count,
                sp_repeat(i as nat, p, u64_item(d)) == Ok::<(Seq<u64>, int), Error>((out@, self.pos())),
            decreases count - i,
        {
            let v = match self.read_f64() {
                Ok(v) => v,
                Err(e) => {
                    proof {
                        assert(sp_repeat((i + 1) as nat, p, u64_item(d)) == Err::<(Seq<u64>, int), Error>(e));
                        lemma_repeat_err((i + 1) as nat, count as nat, p, u64_item(d));
                    }
                    return Err(e);
                },
            };
            out.push(v);
            i = i + 1;
        }
        Ok(out)
    }

    /// Read `count` `i32` enum codes.
    #[verifier::loop_isolation(false)]
    pub fn read_enum_seq<T: IsUnknown>(&mut self, count: usize, config: &ParseConfig, field: &'static str) -> (res: Result<Vec<T>, Error>)
        ensures
            final(self).data() == old(self).data(),
            final(self).pos() >= old(self).pos(),
            prv(res, final(self).pos()) == sp_repeat(count as nat, old(self).pos(), enum_item::<T>(old(self).data(), *config, field)),
    {
        let ghost d = self.data();
        let ghost p = self.pos();
        let mut out: Vec<T> = Vec::new();
        let mut i: usize = 0;
        while i < count
            invariant
                self.data() == d,
                self.pos() >= p,
                i <= count,
                sp_repeat(i as nat, p, enum_item::<T>(d, *config, field)) == Ok::<(Seq<T>, int), Error>((out@, self.pos())),
            decreases count - i,
        {
            let v = match self.read_enum::<T>(config, field) {
                Ok(v) => v,
                Err(e) => {
                    proof {
                        assert(sp_repeat((i + 1) as nat, p, enum_item::<T>(d, *config, field)) == Err::<(Seq<T>, int), Error>(e));
                        lemma_repeat_err((i + 1) as nat, count as nat, p, enum_item::<T>(d, *config, field));
                    }
                    return Err(e);
                },
            };
            out.push(v);
            i = i + 1;
        }
        Ok(out)
    }
}

} // verus!
