//! Sized blocks shared by the translation, rotation and scaling parameters.
//!
//! A sized block is an `i32` byte size followed by the block's fields; bytes of
//! the block that its fields do not use are skipped.

use vstd::prelude::*;

use crate::config::ParseConfig;
use crate::error::Error;
use crate::reader::{
    chain, pr, prv, sp_i32, sp_random_float, sp_random_vector3d, sp_ref_min_max, sp_sized,
    sp_vector3d, BinaryReader, PR,
};
use crate::types::params::{
    ParameterEasingFloat, ParameterEasingVector3D, SpecParameterEasingFloat,
    SpecParameterEasingVector3D,
};
use crate::types::primitives::{RandomFloat, RandomVector3D, RefMinMax, Vector3D};

use super::easing::{parse_easing_float, parse_vector3d_easing_with_size, sp_easing_float, sp_easing_vector3d};

verus! {

/// The fields of a position-velocity-acceleration block.
pub struct Pva {
    /// Equations for the value.
    pub ref_eq_p: RefMinMax,
    /// Equations for the velocity.
    pub ref_eq_v: RefMinMax,
    /// Equations for the acceleration.
    pub ref_eq_a: RefMinMax,
    /// Value.
    pub value: RandomVector3D,
    /// Velocity.
    pub velocity: RandomVector3D,
    /// Acceleration.
    pub acceleration: RandomVector3D,
}

/// The fields of a one-component position-velocity-acceleration block.
pub struct Pva1 {
    /// Value.
    pub value: RandomFloat,
    /// Velocity.
    pub velocity: RandomFloat,
    /// Acceleration.
    pub acceleration: RandomFloat,
}

/// A sized block holding an equation reference and a vector.
pub open spec fn sp_sized_fixed(d: Seq<u8>, p: int) -> PR<(i32, Vector3D)> {
    chain(sp_i32(d, p), |size: i32, start: int|
    sp_sized(d, start, size as usize,
        chain(sp_i32(d, start), |ref_eq: i32, p: int|
        chain(sp_vector3d(d, p), |v: Vector3D, p: int|
        Ok(((ref_eq, v), p))))))
}

/// Three pairs of equation references and three random vectors.
pub open spec fn sp_pva(d: Seq<u8>, p: int) -> PR<Pva> {
    chain(sp_ref_min_max(d, p), |ref_eq_p: RefMinMax, p: int|
    chain(sp_ref_min_max(d, p), |ref_eq_v: RefMinMax, p: int|
    chain(sp_ref_min_max(d, p), |ref_eq_a: RefMinMax, p: int|
    chain(sp_random_vector3d(d, p), |value: RandomVector3D, p: int|
    chain(sp_random_vector3d(d, p), |velocity: RandomVector3D, p: int|
    chain(sp_random_vector3d(d, p), |acceleration: RandomVector3D, p: int|
    Ok((Pva { ref_eq_p, ref_eq_v, ref_eq_a, value, velocity, acceleration }, p))))))))
}

/// A sized block holding a [`Pva`].
pub open spec fn sp_sized_pva(d: Seq<u8>, p: int) -> PR<Pva> {
    chain(sp_i32(d, p), |size: i32, start: int| sp_sized(d, start, size as usize, sp_pva(d, start)))
}

/// Three random floats.
pub open spec fn sp_pva1(d: Seq<u8>, p: int) -> PR<Pva1> {
    chain(sp_random_float(d, p), |value: RandomFloat, p: int|
    chain(sp_random_float(d, p), |velocity: RandomFloat, p: int|
    chain(sp_random_float(d, p), |acceleration: RandomFloat, p: int|
    Ok((Pva1 { value, velocity, acceleration }, p)))))
}

/// A sized block holding a [`Pva1`].
pub open spec fn sp_sized_pva1(d: Seq<u8>, p: int) -> PR<Pva1> {
    chain(sp_i32(d, p), |size: i32, start: int| sp_sized(d, start, size as usize, sp_pva1(d, start)))
}

/// A sized block holding an axis and a [`Pva1`].
pub open spec fn sp_sized_axis_pva(d: Seq<u8>, p: int) -> PR<(RandomVector3D, Pva1)> {
    chain(sp_i32(d, p), |size: i32, start: int|
    sp_sized(d, start, size as usize,
        chain(sp_random_vector3d(d, start), |axis: RandomVector3D, p: int|
        chain(sp_pva1(d, p), |v: Pva1, p: int| Ok(((axis, v), p))))))
}

/// A sized block holding a vector easing (equations from version 14, appended
/// fields from version 1600).
pub open spec fn sp_sized_easing_vector3d(d: Seq<u8>, p: int, version: i32, cfg: ParseConfig) -> PR<SpecParameterEasingVector3D> {
    chain(sp_i32(d, p), |size: i32, start: int|
    sp_sized(d, start, size as usize, sp_easing_vector3d(d, start, version, cfg, 14, 1600)))
}

/// A sized block holding a float easing (equations from version 14, appended
/// fields from version 1600).
pub open spec fn sp_sized_easing_float(d: Seq<u8>, p: int, version: i32, cfg: ParseConfig) -> PR<SpecParameterEasingFloat> {
    chain(sp_i32(d, p), |size: i32, start: int|
    sp_sized(d, start, size as usize, sp_easing_float(d, start, version, cfg, 14, 1600)))
}

fn read_size(reader: &mut BinaryReader) -> (res: Result<usize, Error>)
    ensures
        final(reader).data() == old(reader).data(),
        final(reader).pos() >= old(reader).pos(),
        pr(res, final(reader).pos()) == chain(
            sp_i32(old(reader).data(), old(reader).pos()),
            |v: i32, q: int| Ok((v as usize, q)),
        ),
{
    let v = reader.read_i32()?;
    Ok(#[verifier::truncate] (v as usize))
}

/// Read a sized block holding an equation reference and a vector.
pub fn read_sized_fixed(reader: &mut BinaryReader) -> (res: Result<(i32, Vector3D), Error>)
    ensures
        final(reader).data() == old(reader).data(),
        final(reader).pos() >= old(reader).pos(),
        pr(res, final(reader).pos()) == sp_sized_fixed(old(reader).data(), old(reader).pos()),
{
    let size = read_size(reader)?;
    let start = reader.position();
    let ref_eq = reader.read_i32()?;
    let v = reader.read_vector3d()?;
    reader.skip_rest(start, size)?;
    Ok((ref_eq, v))
}

fn read_pva(reader: &mut BinaryReader) -> (res: Result<Pva, Error>)
    ensures
        final(reader).data() == old(reader).data(),
        final(reader).pos() >= old(reader).pos(),
        pr(res, final(reader).pos()) == sp_pva(old(reader).data(), old(reader).pos()),
{
    let ref_eq_p = reader.read_ref_min_max()?;
    let ref_eq_v = reader.read_ref_min_max()?;
    let ref_eq_a = reader.read_ref_min_max()?;
    let value = reader.read_random_vector3d()?;
    let velocity = reader.read_random_vector3d()?;
    let acceleration = reader.read_random_vector3d()?;
    Ok(Pva { ref_eq_p, ref_eq_v, ref_eq_a, value, velocity, acceleration })
}

/// Read a sized block holding a [`Pva`].
pub fn read_sized_pva(reader: &mut BinaryReader) -> (res: Result<Pva, Error>)
    ensures
        final(reader).data() == old(reader).data(),
        final(reader).pos() >= old(reader).pos(),
        pr(res, final(reader).pos()) == sp_sized_pva(old(reader).data(), old(reader).pos()),
{
    let size = read_size(reader)?;
    let start = reader.position();
    let v = read_pva(reader)?;
    reader.skip_rest(start, size)?;
    Ok(v)
}

fn read_pva1(reader: &mut BinaryReader) -> (res: Result<Pva1, Error>)
    ensures
        final(reader).data() == old(reader).data(),
        final(reader).pos() >= old(reader).pos(),
        pr(res, final(reader).pos()) == sp_pva1(old(reader).data(), old(reader).pos()),
{
    let value = reader.read_random_float()?;
    let velocity = reader.read_random_float()?;
    let acceleration = reader.read_random_float()?;
    Ok(Pva1 { value, velocity, acceleration })
}

/// Read a sized block holding a [`Pva1`].
pub fn read_sized_pva1(reader: &mut BinaryReader) -> (res: Result<Pva1, Error>)
    ensures
        final(reader).data() == old(reader).data(),
        final(reader).pos() >= old(reader).pos(),
        pr(res, final(reader).pos()) == sp_sized_pva1(old(reader).data(), old(reader).pos()),
{
    let size = read_size(reader)?;
    let start = reader.position();
    let v = read_pva1(reader)?;
    reader.skip_rest(start, size)?;
    Ok(v)
}

/// Read a sized block holding an axis and a [`Pva1`].
pub fn read_sized_axis_pva(reader: &mut BinaryReader) -> (res: Result<(RandomVector3D, Pva1), Error>)
    ensures
        final(reader).data() == old(reader).data(),
        final(reader).pos() >= old(reader).pos(),
        pr(res, final(reader).pos()) == sp_sized_axis_pva(old(reader).data(), old(reader).pos()),
{
    let size = read_size(reader)?;
    let start = reader.position();
    let axis = reader.read_random_vector3d()?;
    let v = read_pva1(reader)?;
    reader.skip_rest(start, size)?;
    Ok((axis, v))
}

/// Read a sized block holding a vector easing.
pub fn read_sized_easing_vector3d(reader: &mut BinaryReader, version: i32, config: &ParseConfig) -> (res: Result<ParameterEasingVector3D, Error>)
    ensures
        final(reader).data() == old(reader).data(),
        final(reader).pos() >= old(reader).pos(),
        prv(res, final(reader).pos()) == sp_sized_easing_vector3d(old(reader).data(), old(reader).pos(), version, *config),
{
    let size = read_size(reader)?;
    parse_vector3d_easing_with_size(reader, version, config, 14, 1600, size)
}

/// Read a sized block holding a float easing.
pub fn read_sized_easing_float(reader: &mut BinaryReader, version: i32, config: &ParseConfig) -> (res: Result<ParameterEasingFloat, Error>)
    ensures
        final(reader).data() == old(reader).data(),
        final(reader).pos() >= old(reader).pos(),
        prv(res, final(reader).pos()) == sp_sized_easing_float(old(reader).data(), old(reader).pos(), version, *config),
{
    let size = read_size(reader)?;
    let start = reader.position();
    let e = parse_easing_float(reader, version, config, 14, 1600)?;
    reader.skip_rest(start, size)?;
    Ok(e)
}

} // verus!
