//! All-type color parameter parser.

use vstd::prelude::*;

use crate::config::ParseConfig;
use crate::error::Error;
use crate::reader::{chain, prv, sp_color, sp_easing_color, sp_enum, sp_random_color, BinaryReader, PR};
use crate::types::color::{AllTypeColorParameter, SpecAllTypeColorParameter};
use crate::types::enums::AllTypeColorType;
use crate::types::fcurve::SpecFCurveVectorColor;
use crate::types::gradient::SpecGradient;
use crate::types::primitives::{Color, EasingColor, RandomColor};

use super::fcurve::{parse_fcurve_vector_color, sp_fcurve_vector_color};
use super::gradient::{parse_gradient, sp_gradient};

verus! {

/// Opaque white, the color of an unknown color kind.
pub open spec fn spec_white() -> Color {
    Color { r: 255, g: 255, b: 255, a: 255 }
}

/// A color parameter: the kind code, then the kind's data. An unknown kind
/// (accepted under the lenient policy) reads nothing more and stands for
/// fixed white.
#[verifier::opaque]
pub open spec fn sp_all_type_color(d: Seq<u8>, p: int, version: i32, cfg: ParseConfig) -> PR<SpecAllTypeColorParameter> {
    chain(sp_enum::<AllTypeColorType>(d, p, cfg, "AllTypeColor.type"), |t: AllTypeColorType, p: int|
    match t {
        AllTypeColorType::Fixed => chain(sp_color(d, p), |all: Color, p: int|
            Ok((SpecAllTypeColorParameter::Fixed { all }, p))),
        AllTypeColorType::Random => chain(sp_random_color(d, p, cfg), |all: RandomColor, p: int|
            Ok((SpecAllTypeColorParameter::Random { all }, p))),
        AllTypeColorType::Easing => chain(sp_easing_color(d, p, cfg), |e: EasingColor, p: int|
            Ok((SpecAllTypeColorParameter::Easing(e), p))),
        AllTypeColorType::FCurveRgba => chain(sp_fcurve_vector_color(d, p, cfg), |f: SpecFCurveVectorColor, p: int|
            Ok((SpecAllTypeColorParameter::FCurveRgba(f), p))),
        AllTypeColorType::Gradient => chain(sp_gradient(d, p), |g: SpecGradient, p: int|
            Ok((SpecAllTypeColorParameter::Gradient(g), p))),
        AllTypeColorType::Unknown(_) => Ok((SpecAllTypeColorParameter::Fixed { all: spec_white() }, p)),
    })
}

/// Parse an AllTypeColorParameter from the binary stream.
pub fn parse_all_type_color(reader: &mut BinaryReader, version: i32, config: &ParseConfig) -> (res: Result<AllTypeColorParameter, Error>)
    ensures
        final(reader).data() == old(reader).data(),
        final(reader).pos() >= old(reader).pos(),
        prv(res, final(reader).pos()) == sp_all_type_color(old(reader).data(), old(reader).pos(), version, *config),
{
    proof {
        reveal(sp_all_type_color);
    }
    let type_: AllTypeColorType = reader.read_enum(config, "AllTypeColor.type")?;
    match type_ {
        AllTypeColorType::Fixed => {
            let all = reader.read_color()?;
            Ok(AllTypeColorParameter::Fixed { all })
        },
        AllTypeColorType::Random => {
            let all = reader.read_random_color(config)?;
            Ok(AllTypeColorParameter::Random { all })
        },
        AllTypeColorType::Easing => {
            let easing = reader.read_easing_color(config)?;
            Ok(AllTypeColorParameter::Easing(easing))
        },
        AllTypeColorType::FCurveRgba => {
            let fcurve = parse_fcurve_vector_color(reader, version, config)?;
            Ok(AllTypeColorParameter::FCurveRgba(Box::new(fcurve)))
        },
        AllTypeColorType::Gradient => {
            let gradient = parse_gradient(reader)?;
            Ok(AllTypeColorParameter::Gradient(Box::new(gradient)))
        },
        AllTypeColorType::Unknown(_) => {
            Ok(AllTypeColorParameter::Fixed { all: Color { r: 255, g: 255, b: 255, a: 255 } })
        },
    }
}

} // verus!
