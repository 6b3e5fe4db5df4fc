//! Kind-specific renderer parsers (sprite, ribbon, ring, model, track).

use vstd::prelude::*;

use crate::config::ParseConfig;
use crate::error::Error;
use crate::reader::{
    chain, pr, prv, sp_bool, sp_color, sp_easing_vector2d, sp_enum, sp_i32, sp_random_vector2d,
    sp_u32, sp_vector2d, BinaryReader, PR,
};
use crate::types::color::{AllTypeColorParameter, SpecAllTypeColorParameter};
use crate::types::enums::{
    BillboardType, CullingType, EffectNodeType, FalloffBlendType, ModelReferenceType, RenderingOrder,
    RingLocationType, RingShapeType, RingSingleType, TextureUVType, TrackSizeType,
    TrailSmoothingType, TrailTimeType,
};
use crate::types::params::SpecParameterEasingFloat;
use crate::types::primitives::{Color, EasingVector2D, RandomVector2D, Vector2D};
use crate::types::renderer::{
    FalloffParameter, ModelParams, NodeRendererTextureUVTypeParameter, RendererVariant,
    RibbonColorParameter, RibbonParams, RibbonPositionParameter, RingLocationParameter, RingParams,
    RingShapeParameter, RingSingleParameter, SpecModelParams, SpecRendererVariant,
    SpecRibbonParams, SpecRingParams, SpecRingShapeParameter, SpecRingSingleParameter,
    SpecSpriteParams, SpecTrackParams, SpriteColorParameter, SpriteParams, SpritePositionParameter,
    TrackParams, TrackSizeParameter,
};

use super::color::{parse_all_type_color, sp_all_type_color};
use super::easing::{parse_easing_float, sp_easing_float};
use super::force_field::F32_ONE_BITS;

verus! {

// ---------------------------------------------------------------- small parts

/// A texture UV type: the kind, then the tile edges and loop area for
/// `TilePerParticle` or the tile length for `Tile`; other fields are zero.
pub open spec fn sp_texture_uv_type(d: Seq<u8>, p: int, cfg: ParseConfig) -> PR<NodeRendererTextureUVTypeParameter> {
    chain(sp_enum::<TextureUVType>(d, p, cfg, "TextureUVType.type"), |uv_type: TextureUVType, p: int|
    match uv_type {
        TextureUVType::TilePerParticle =>
            chain(sp_i32(d, p), |head: i32, p: int|
            chain(sp_i32(d, p), |tail: i32, p: int|
            chain(sp_u32(d, p), |begin: u32, p: int|
            chain(sp_u32(d, p), |end: u32, p: int|
            Ok((NodeRendererTextureUVTypeParameter {
                uv_type,
                tile_length: 0,
                tile_edge_head: head,
                tile_edge_tail: tail,
                tile_loop_area_begin: begin,
                tile_loop_area_end: end,
            }, p)))))),
        TextureUVType::Tile => chain(sp_u32(d, p), |len: u32, p: int|
            Ok((NodeRendererTextureUVTypeParameter {
                uv_type,
                tile_length: len,
                tile_edge_head: 0,
                tile_edge_tail: 0,
                tile_loop_area_begin: 0,
                tile_loop_area_end: 0,
            }, p))),
        _ => Ok((NodeRendererTextureUVTypeParameter {
            uv_type,
            tile_length: 0,
            tile_edge_head: 0,
            tile_edge_tail: 0,
            tile_loop_area_begin: 0,
            tile_loop_area_end: 0,
        }, p)),
    })
}

/// A ring scalar: fixed, random range or easing (all easing fields from
/// version 1608). An unknown kind reads nothing and stands for fixed zero.
pub open spec fn sp_ring_single(d: Seq<u8>, p: int, version: i32, cfg: ParseConfig) -> PR<SpecRingSingleParameter> {
    chain(sp_enum::<RingSingleType>(d, p, cfg, "RingSingle.type"), |t: RingSingleType, p: int|
    match t {
        RingSingleType::Fixed => chain(sp_u32(d, p), |value: u32, p: int|
            Ok((SpecRingSingleParameter::Fixed { value }, p))),
        RingSingleType::Random => chain(sp_u32(d, p), |max: u32, p: int|
            chain(sp_u32(d, p), |min: u32, p: int| Ok((SpecRingSingleParameter::Random { max, min }, p)))),
        RingSingleType::Easing => chain(sp_easing_float(d, p, version, cfg, 1608, 1608), |e: SpecParameterEasingFloat, p: int|
            Ok((SpecRingSingleParameter::Easing(e), p))),
        RingSingleType::Unknown(_) => Ok((SpecRingSingleParameter::Fixed { value: 0 }, p)),
    })
}

/// A ring location: fixed, PVA or easing. An unknown kind reads nothing and
/// stands for the fixed origin.
pub open spec fn sp_ring_location(d: Seq<u8>, p: int, cfg: ParseConfig) -> PR<RingLocationParameter> {
    chain(sp_enum::<RingLocationType>(d, p, cfg, "RingLocation.type"), |t: RingLocationType, p: int|
    match t {
        RingLocationType::Fixed => chain(sp_vector2d(d, p), |location: Vector2D, p: int|
            Ok((RingLocationParameter::Fixed { location }, p))),
        RingLocationType::Pva =>
            chain(sp_random_vector2d(d, p), |location: RandomVector2D, p: int|
            chain(sp_random_vector2d(d, p), |velocity: RandomVector2D, p: int|
            chain(sp_random_vector2d(d, p), |acceleration: RandomVector2D, p: int|
            Ok((RingLocationParameter::Pva { location, velocity, acceleration }, p))))),
        RingLocationType::Easing => chain(sp_easing_vector2d(d, p), |e: EasingVector2D, p: int|
            Ok((RingLocationParameter::Easing(e), p))),
        RingLocationType::Unknown(_) => Ok((RingLocationParameter::Fixed { location: Vector2D { x: 0, y: 0 } }, p)),
    })
}

/// A track size: fixed. An unknown kind reads nothing and stands for `1.0`.
pub open spec fn sp_track_size(d: Seq<u8>, p: int, cfg: ParseConfig) -> PR<TrackSizeParameter> {
    chain(sp_enum::<TrackSizeType>(d, p, cfg, "TrackSize.type"), |t: TrackSizeType, p: int|
    match t {
        TrackSizeType::Fixed => chain(sp_u32(d, p), |size: u32, p: int| Ok((TrackSizeParameter::Fixed { size }, p))),
        TrackSizeType::Unknown(_) => Ok((TrackSizeParameter::Fixed { size: F32_ONE_BITS }, p)),
    })
}

fn parse_texture_uv_type(reader: &mut BinaryReader, config: &ParseConfig) -> (res: Result<NodeRendererTextureUVTypeParameter, Error>)
    ensures
        final(reader).data() == old(reader).data(),
        final(reader).pos() >= old(reader).pos(),
        pr(res, final(reader).pos()) == sp_texture_uv_type(old(reader).data(), old(reader).pos(), *config),
{
    let uv_type: TextureUVType = reader.read_enum(config, "TextureUVType.type")?;
    let mut param = NodeRendererTextureUVTypeParameter {
        uv_type,
        tile_length: 0,
        tile_edge_head: 0,
        tile_edge_tail: 0,
        tile_loop_area_begin: 0,
        tile_loop_area_end: 0,
    };
    match uv_type {
        TextureUVType::TilePerParticle => {
            param.tile_edge_head = reader.read_i32()?;
            param.tile_edge_tail = reader.read_i32()?;
            param.tile_loop_area_begin = reader.read_f32()?;
            param.tile_loop_area_end = reader.read_f32()?;
        },
        TextureUVType::Tile => {
            param.tile_length = reader.read_f32()?;
        },
        _ => {},
    }
    Ok(param)
}

fn parse_ring_single_parameter(reader: &mut BinaryReader, version: i32, config: &ParseConfig) -> (res: Result<RingSingleParameter, Error>)
    ensures
        final(reader).data() == old(reader).data(),
        final(reader).pos() >= old(reader).pos(),
        prv(res, final(reader).pos()) == sp_ring_single(old(reader).data(), old(reader).pos(), version, *config),
{
    let t: RingSingleType = reader.read_enum(config, "RingSingle.type")?;
    match t {
        RingSingleType::Fixed => {
            let value = reader.read_f32()?;
            Ok(RingSingleParameter::Fixed { value })
        },
        RingSingleType::Random => {
            let max = reader.read_f32()?;
            let min = reader.read_f32()?;
            Ok(RingSingleParameter::Random { max, min })
        },
        RingSingleType::Easing => {
            let easing = parse_easing_float(reader, version, config, 1608, 1608)?;
            Ok(RingSingleParameter::Easing(Box::new(easing)))
        },
        RingSingleType::Unknown(_) => Ok(RingSingleParameter::Fixed { value: 0 }),
    }
}

fn parse_ring_location_parameter(reader: &mut BinaryReader, config: &ParseConfig) -> (res: Result<RingLocationParameter, Error>)
    ensures
        final(reader).data() == old(reader).data(),
        final(reader).pos() >= old(reader).pos(),
        pr(res, final(reader).pos()) == sp_ring_location(old(reader).data(), old(reader).pos(), *config),
{
    let t: RingLocationType = reader.read_enum(config, "RingLocation.type")?;
    match t {
        RingLocationType::Fixed => {
            let location = reader.read_vector2d()?;
            Ok(RingLocationParameter::Fixed { location })
        },
        RingLocationType::Pva => {
            let location = reader.read_random_vector2d()?;
            let velocity = reader.read_random_vector2d()?;
            let acceleration = reader.read_random_vector2d()?;
            Ok(RingLocationParameter::Pva { location, velocity, acceleration })
        },
        RingLocationType::Easing => {
            let e = reader.read_easing_vector2d()?;
            Ok(RingLocationParameter::Easing(e))
        },
        RingLocationType::Unknown(_) => Ok(RingLocationParameter::Fixed { location: Vector2D { x: 0, y: 0 } }),
    }
}

fn parse_track_size(reader: &mut BinaryReader, config: &ParseConfig) -> (res: Result<TrackSizeParameter, Error>)
    ensures
        final(reader).data() == old(reader).data(),
        final(reader).pos() >= old(reader).pos(),
        pr(res, final(reader).pos()) == sp_track_size(old(reader).data(), old(reader).pos(), *config),
{
    let t: TrackSizeType = reader.read_enum(config, "TrackSize.type")?;
    match t {
        TrackSizeType::Fixed => {
            let size = reader.read_f32()?;
            Ok(TrackSizeParameter::Fixed { size })
        },
        TrackSizeType::Unknown(_) => Ok(TrackSizeParameter::Fixed { size: F32_ONE_BITS }),
    }
}

// ---------------------------------------------------------------- sprite

/// Four colors (lower left, lower right, upper left, upper right).
pub open spec fn sp_four_colors(d: Seq<u8>, p: int) -> PR<(Color, Color, Color, Color)> {
    chain(sp_color(d, p), |a: Color, p: int|
    chain(sp_color(d, p), |b: Color, p: int|
    chain(sp_color(d, p), |c: Color, p: int|
    chain(sp_color(d, p), |e: Color, p: int|
    Ok(((a, b, c, e), p))))))
}

/// Four 2D points (lower left, lower right, upper left, upper right).
pub open spec fn sp_four_points(d: Seq<u8>, p: int) -> PR<(Vector2D, Vector2D, Vector2D, Vector2D)> {
    chain(sp_vector2d(d, p), |a: Vector2D, p: int|
    chain(sp_vector2d(d, p), |b: Vector2D, p: int|
    chain(sp_vector2d(d, p), |c: Vector2D, p: int|
    chain(sp_vector2d(d, p), |e: Vector2D, p: int|
    Ok(((a, b, c, e), p))))))
}

/// The per-vertex colors of a sprite: code `1` is fixed colors, any other default.
pub open spec fn sp_sprite_color(d: Seq<u8>, p: int) -> PR<SpriteColorParameter> {
    chain(sp_i32(d, p), |t: i32, p: int|
    if t == 1 {
        chain(sp_four_colors(d, p), |c: (Color, Color, Color, Color), p: int|
        Ok((SpriteColorParameter::Fixed { ll: c.0, lr: c.1, ul: c.2, ur: c.3 }, p)))
    } else {
        Ok((SpriteColorParameter::Default, p))
    })
}

/// A sprite renderer.
pub open spec fn sp_sprite(d: Seq<u8>, p: int, version: i32, cfg: ParseConfig) -> PR<SpecSpriteParams> {
    chain(sp_i32(d, p), |_check: i32, p: int|
    chain(sp_enum::<RenderingOrder>(d, p, cfg, "Sprite.rendering_order"), |rendering_order: RenderingOrder, p: int|
    chain(sp_enum::<BillboardType>(d, p, cfg, "Sprite.billboard"), |billboard: BillboardType, p: int|
    chain(sp_all_type_color(d, p, version, cfg), |all_color: SpecAllTypeColorParameter, p: int|
    chain(sp_sprite_color(d, p), |sprite_color: SpriteColorParameter, p: int|
    chain(sp_i32(d, p), |_position_type: i32, p: int|
    chain(sp_four_points(d, p), |q: (Vector2D, Vector2D, Vector2D, Vector2D), p: int|
    Ok((SpecSpriteParams {
        rendering_order,
        billboard,
        all_color,
        sprite_color,
        sprite_position: SpritePositionParameter::Fixed { ll: q.0, lr: q.1, ul: q.2, ur: q.3 },
    }, p)))))))))
}

fn read_four_colors(reader: &mut BinaryReader) -> (res: Result<(Color, Color, Color, Color), Error>)
    ensures
        final(reader).data() == old(reader).data(),
        final(reader).pos() >= old(reader).pos(),
        pr(res, final(reader).pos()) == sp_four_colors(old(reader).data(), old(reader).pos()),
{
    let a = reader.read_color()?;
    let b = reader.read_color()?;
    let c = reader.read_color()?;
    let e = reader.read_color()?;
    Ok((a, b, c, e))
}

fn read_four_points(reader: &mut BinaryReader) -> (res: Result<(Vector2D, Vector2D, Vector2D, Vector2D), Error>)
    ensures
        final(reader).data() == old(reader).data(),
        final(reader).pos() >= old(reader).pos(),
        pr(res, final(reader).pos()) == sp_four_points(old(reader).data(), old(reader).pos()),
{
    let a = reader.read_vector2d()?;
    let b = reader.read_vector2d()?;
    let c = reader.read_vector2d()?;
    let e = reader.read_vector2d()?;
    Ok((a, b, c, e))
}

fn parse_sprite_color(reader: &mut BinaryReader) -> (res: Result<SpriteColorParameter, Error>)
    ensures
        final(reader).data() == old(reader).data(),
        final(reader).pos() >= old(reader).pos(),
        pr(res, final(reader).pos()) == sp_sprite_color(old(reader).data(), old(reader).pos()),
{
    let t = reader.read_i32()?;
    if t == 1 {
        let c = read_four_colors(reader)?;
        Ok(SpriteColorParameter::Fixed { ll: c.0, lr: c.1, ul: c.2, ur: c.3 })
    } else {
        Ok(SpriteColorParameter::Default)
    }
}

/// Parse a sprite renderer.
pub fn parse_sprite_renderer(reader: &mut BinaryReader, version: i32, config: &ParseConfig) -> (res: Result<SpriteParams, Error>)
    ensures
        final(reader).data() == old(reader).data(),
        final(reader).pos() >= old(reader).pos(),
        prv(res, final(reader).pos()) == sp_sprite(old(reader).data(), old(reader).pos(), version, *config),
{
    let _type_check = reader.read_i32()?;
    let rendering_order: RenderingOrder = reader.read_enum(config, "Sprite.rendering_order")?;
    let billboard: BillboardType = reader.read_enum(config, "Sprite.billboard")?;
    let all_color = parse_all_type_color(reader, version, config)?;
    let sprite_color = parse_sprite_color(reader)?;
    let _position_type = reader.read_i32()?;
    let q = read_four_points(reader)?;
    Ok(SpriteParams {
        rendering_order,
        billboard,
        all_color,
        sprite_color,
        sprite_position: SpritePositionParameter::Fixed { ll: q.0, lr: q.1, ul: q.2, ur: q.3 },
    })
}

// ---------------------------------------------------------------- ribbon

/// An optional trail time type (from version 1700).
pub open spec fn sp_trail_time(d: Seq<u8>, p: int, version: i32, cfg: ParseConfig, field: &'static str) -> PR<Option<TrailTimeType>> {
    if version >= 1700 {
        chain(sp_enum::<TrailTimeType>(d, p, cfg, field), |t: TrailTimeType, p: int| Ok((Some(t), p)))
    } else {
        Ok((None, p))
    }
}

/// The colors of a ribbon's sides: code `1` is fixed colors, any other default.
pub open spec fn sp_ribbon_color(d: Seq<u8>, p: int) -> PR<RibbonColorParameter> {
    chain(sp_i32(d, p), |t: i32, p: int|
    if t == 1 {
        chain(sp_color(d, p), |l: Color, p: int|
        chain(sp_color(d, p), |r: Color, p: int|
        Ok((RibbonColorParameter::Fixed { l, r }, p))))
    } else {
        Ok((RibbonColorParameter::Default, p))
    })
}

/// A ribbon renderer.
pub open spec fn sp_ribbon(d: Seq<u8>, p: int, version: i32, cfg: ParseConfig) -> PR<SpecRibbonParams> {
    chain(sp_i32(d, p), |_check: i32, p: int|
    chain(sp_texture_uv_type(d, p, cfg), |texture_uv_type: NodeRendererTextureUVTypeParameter, p: int|
    chain(sp_trail_time(d, p, version, cfg, "Ribbon.trail_time_type"), |trail_time_type: Option<TrailTimeType>, p: int|
    chain(sp_bool(d, p), |viewpoint_dependent: bool, p: int|
    chain(sp_all_type_color(d, p, version, cfg), |all_color: SpecAllTypeColorParameter, p: int|
    chain(sp_ribbon_color(d, p), |ribbon_color: RibbonColorParameter, p: int|
    chain(sp_i32(d, p), |_position_type: i32, p: int|
    chain(sp_u32(d, p), |l: u32, p: int|
    chain(sp_u32(d, p), |r: u32, p: int|
    chain(sp_i32(d, p), |spline_division: i32, p: int|
    Ok((SpecRibbonParams {
        texture_uv_type,
        trail_time_type,
        viewpoint_dependent,
        all_color,
        ribbon_color,
        ribbon_position: RibbonPositionParameter::Fixed { l, r },
        spline_division,
    }, p))))))))))))
}

fn read_trail_time(reader: &mut BinaryReader, version: i32, config: &ParseConfig, field: &'static str) -> (res: Result<Option<TrailTimeType>, Error>)
    ensures
        final(reader).data() == old(reader).data(),
        final(reader).pos() >= old(reader).pos(),
        pr(res, final(reader).pos()) == sp_trail_time(old(reader).data(), old(reader).pos(), version, *config, field),
{
    if version >= 1700 {
        let t: TrailTimeType = reader.read_enum(config, field)?;
        Ok(Some(t))
    } else {
        Ok(None)
    }
}

fn parse_ribbon_color(reader: &mut BinaryReader) -> (res: Result<RibbonColorParameter, Error>)
    ensures
        final(reader).data() == old(reader).data(),
        final(reader).pos() >= old(reader).pos(),
        pr(res, final(reader).pos()) == sp_ribbon_color(old(reader).data(), old(reader).pos()),
{
    let t = reader.read_i32()?;
    if t == 1 {
        let l = reader.read_color()?;
        let r = reader.read_color()?;
        Ok(RibbonColorParameter::Fixed { l, r })
    } else {
        Ok(RibbonColorParameter::Default)
    }
}

/// Parse a ribbon renderer.
pub fn parse_ribbon_renderer(reader: &mut BinaryReader, version: i32, config: &ParseConfig) -> (res: Result<RibbonParams, Error>)
    ensures
        final(reader).data() == old(reader).data(),
        final(reader).pos() >= old(reader).pos(),
        prv(res, final(reader).pos()) == sp_ribbon(old(reader).data(), old(reader).pos(), version, *config),
{
    let _type_check = reader.read_i32()?;
    let texture_uv_type = parse_texture_uv_type(reader, config)?;
    let trail_time_type = read_trail_time(reader, version, config, "Ribbon.trail_time_type")?;
    let viewpoint_dependent = reader.read_i32_as_bool()?;
    let all_color = parse_all_type_color(reader, version, config)?;
    let ribbon_color = parse_ribbon_color(reader)?;
    let _position_type = reader.read_i32()?;
    let l = reader.read_f32()?;
    let r = reader.read_f32()?;
    let spline_division = reader.read_i32()?;
    Ok(RibbonParams {
        texture_uv_type,
        trail_time_type,
        viewpoint_dependent,
        all_color,
        ribbon_color,
        ribbon_position: RibbonPositionParameter::Fixed { l, r },
        spline_division,
    })
}

// ---------------------------------------------------------------- ring

/// The shape of a ring: a crescent's fades and angles, or a donut.
pub open spec fn sp_ring_shape(d: Seq<u8>, p: int, version: i32, cfg: ParseConfig) -> PR<SpecRingShapeParameter> {
    chain(sp_enum::<RingShapeType>(d, p, cfg, "Ring.shape_type"), |t: RingShapeType, p: int|
    match t {
        RingShapeType::Crescent =>
            chain(sp_u32(d, p), |starting_fade: u32, p: int|
            chain(sp_u32(d, p), |ending_fade: u32, p: int|
            chain(sp_ring_single(d, p, version, cfg), |starting_angle: SpecRingSingleParameter, p: int|
            chain(sp_ring_single(d, p, version, cfg), |ending_angle: SpecRingSingleParameter, p: int|
            Ok((SpecRingShapeParameter::Crescent { starting_fade, ending_fade, starting_angle, ending_angle }, p)))))),
        _ => Ok((SpecRingShapeParameter::Donut, p)),
    })
}

/// The three colors of a ring: outer, center, inner.
pub open spec fn sp_three_colors(d: Seq<u8>, p: int, version: i32, cfg: ParseConfig) -> PR<
    (SpecAllTypeColorParameter, SpecAllTypeColorParameter, SpecAllTypeColorParameter),
> {
    chain(sp_all_type_color(d, p, version, cfg), |a: SpecAllTypeColorParameter, p: int|
    chain(sp_all_type_color(d, p, version, cfg), |b: SpecAllTypeColorParameter, p: int|
    chain(sp_all_type_color(d, p, version, cfg), |c: SpecAllTypeColorParameter, p: int|
    Ok(((a, b, c), p)))))
}

/// A ring renderer.
pub open spec fn sp_ring(d: Seq<u8>, p: int, version: i32, cfg: ParseConfig) -> PR<SpecRingParams> {
    chain(sp_i32(d, p), |_check: i32, p: int|
    chain(sp_enum::<RenderingOrder>(d, p, cfg, "Ring.rendering_order"), |rendering_order: RenderingOrder, p: int|
    chain(sp_enum::<BillboardType>(d, p, cfg, "Ring.billboard"), |billboard: BillboardType, p: int|
    chain(sp_ring_shape(d, p, version, cfg), |shape: SpecRingShapeParameter, p: int|
    chain(sp_i32(d, p), |vertex_count: i32, p: int|
    chain(sp_ring_single(d, p, version, cfg), |viewing_angle: SpecRingSingleParameter, p: int|
    chain(sp_ring_location(d, p, cfg), |outer_location: RingLocationParameter, p: int|
    chain(sp_ring_location(d, p, cfg), |inner_location: RingLocationParameter, p: int|
    chain(sp_ring_single(d, p, version, cfg), |center_ratio: SpecRingSingleParameter, p: int|
    chain(sp_three_colors(d, p, version, cfg), |c: (SpecAllTypeColorParameter, SpecAllTypeColorParameter, SpecAllTypeColorParameter), p: int|
    Ok((SpecRingParams {
        rendering_order,
        billboard,
        shape,
        vertex_count,
        viewing_angle,
        outer_location,
        inner_location,
        center_ratio,
        outer_color: c.0,
        center_color: c.1,
        inner_color: c.2,
    }, p))))))))))))
}

fn parse_ring_shape(reader: &mut BinaryReader, version: i32, config: &ParseConfig) -> (res: Result<RingShapeParameter, Error>)
    ensures
        final(reader).data() == old(reader).data(),
        final(reader).pos() >= old(reader).pos(),
        prv(res, final(reader).pos()) == sp_ring_shape(old(reader).data(), old(reader).pos(), version, *config),
{
    let t: RingShapeType = reader.read_enum(config, "Ring.shape_type")?;
    match t {
        RingShapeType::Crescent => {
            let starting_fade = reader.read_f32()?;
            let ending_fade = reader.read_f32()?;
            let starting_angle = parse_ring_single_parameter(reader, version, config)?;
            let ending_angle = parse_ring_single_parameter(reader, version, config)?;
            Ok(RingShapeParameter::Crescent { starting_fade, ending_fade, starting_angle, ending_angle })
        },
        _ => Ok(RingShapeParameter::Donut),
    }
}

fn read_three_colors(reader: &mut BinaryReader, version: i32, config: &ParseConfig) -> (res: Result<
    (AllTypeColorParameter, AllTypeColorParameter, AllTypeColorParameter),
    Error,
>)
    ensures
        final(reader).data() == old(reader).data(),
        final(reader).pos() >= old(reader).pos(),
        match (res, sp_three_colors(old(reader).data(), old(reader).pos(), version, *config)) {
            (Ok(v), Ok((w, q))) => v.0@ == w.0 && v.1@ == w.1 && v.2@ == w.2 && q == final(reader).pos(),
            (Err(e), Err(f)) => e == f,
            _ => false,
        },
{
    let a = parse_all_type_color(reader, version, config)?;
    let b = parse_all_type_color(reader, version, config)?;
    let c = parse_all_type_color(reader, version, config)?;
    Ok((a, b, c))
}

/// Parse a ring renderer.
pub fn parse_ring_renderer(reader: &mut BinaryReader, version: i32, config: &ParseConfig) -> (res: Result<RingParams, Error>)
    ensures
        final(reader).data() == old(reader).data(),
        final(reader).pos() >= old(reader).pos(),
        prv(res, final(reader).pos()) == sp_ring(old(reader).data(), old(reader).pos(), version, *config),
{
    let _type_check = reader.read_i32()?;
    let rendering_order: RenderingOrder = reader.read_enum(config, "Ring.rendering_order")?;
    let billboard: BillboardType = reader.read_enum(config, "Ring.billboard")?;
    let shape = parse_ring_shape(reader, version, config)?;
    let vertex_count = reader.read_i32()?;
    let viewing_angle = parse_ring_single_parameter(reader, version, config)?;
    let outer_location = parse_ring_location_parameter(reader, config)?;
    let inner_location = parse_ring_location_parameter(reader, config)?;
    let center_ratio = parse_ring_single_parameter(reader, version, config)?;
    let c = read_three_colors(reader, version, config)?;
    Ok(RingParams {
        rendering_order,
        billboard,
        shape,
        vertex_count,
        viewing_angle,
        outer_location,
        inner_location,
        center_ratio,
        outer_color: c.0,
        center_color: c.1,
        inner_color: c.2,
    })
}

// ---------------------------------------------------------------- model

/// The model index for a reference kind: a file reference carries an
/// ignored magnification before the index; an external reference has an
/// index from version 1802; otherwise `-1`.
pub open spec fn sp_model_index(d: Seq<u8>, p: int, version: i32, t: ModelReferenceType) -> PR<i32> {
    match t {
        ModelReferenceType::File => chain(sp_u32(d, p), |_magnification: u32, p: int| sp_i32(d, p)),
        ModelReferenceType::Procedural => sp_i32(d, p),
        ModelReferenceType::External => if version >= 1802 { sp_i32(d, p) } else { Ok((-1i32, p)) },
        ModelReferenceType::Unknown(_) => Ok((-1i32, p)),
    }
}

/// The falloff of a model renderer (versions 1600 and 1601 only): a flag,
/// then the falloff when it is `1`.
pub open spec fn sp_model_falloff(d: Seq<u8>, p: int, version: i32, cfg: ParseConfig) -> PR<Option<FalloffParameter>> {
    if 1600 <= version && version < 1602 {
        chain(sp_i32(d, p), |flag: i32, p: int|
        if flag == 1 {
            chain(sp_enum::<FalloffBlendType>(d, p, cfg, "ModelFalloff.color_blend_type"), |color_blend_type: FalloffBlendType, p: int|
            chain(sp_color(d, p), |begin_color: Color, p: int|
            chain(sp_color(d, p), |end_color: Color, p: int|
            chain(sp_u32(d, p), |pow: u32, p: int|
            Ok((Some(FalloffParameter { color_blend_type, begin_color, end_color, pow }), p))))))
        } else {
            Ok((None, p))
        })
    } else {
        Ok((None, p))
    }
}

/// A model renderer.
pub open spec fn sp_model_renderer(d: Seq<u8>, p: int, version: i32, cfg: ParseConfig) -> PR<SpecModelParams> {
    chain(sp_i32(d, p), |_check: i32, p: int|
    chain(
        if version >= 1602 {
            sp_enum::<ModelReferenceType>(d, p, cfg, "Model.mode")
        } else {
            Ok((ModelReferenceType::File, p))
        },
        |model_reference_type: ModelReferenceType, p: int|
    chain(sp_model_index(d, p, version, model_reference_type), |model_index: i32, p: int|
    chain(sp_enum::<BillboardType>(d, p, cfg, "Model.billboard"), |billboard: BillboardType, p: int|
    chain(sp_enum::<CullingType>(d, p, cfg, "Model.culling"), |culling: CullingType, p: int|
    chain(sp_all_type_color(d, p, version, cfg), |all_color: SpecAllTypeColorParameter, p: int|
    chain(sp_model_falloff(d, p, version, cfg), |falloff: Option<FalloffParameter>, p: int|
    Ok((SpecModelParams { model_reference_type, model_index, billboard, culling, all_color, falloff }, p)))))))))
}

fn read_model_index(reader: &mut BinaryReader, version: i32, t: ModelReferenceType) -> (res: Result<i32, Error>)
    ensures
        final(reader).data() == old(reader).data(),
        final(reader).pos() >= old(reader).pos(),
        pr(res, final(reader).pos()) == sp_model_index(old(reader).data(), old(reader).pos(), version, t),
{
    match t {
        ModelReferenceType::File => {
            let _magnification = reader.read_f32()?;
            reader.read_i32()
        },
        ModelReferenceType::Procedural => reader.read_i32(),
        ModelReferenceType::External => {
            if version >= 1802 {
                reader.read_i32()
            } else {
                Ok(-1)
            }
        },
        ModelReferenceType::Unknown(_) => Ok(-1),
    }
}

fn parse_model_falloff(reader: &mut BinaryReader, version: i32, config: &ParseConfig) -> (res: Result<Option<FalloffParameter>, Error>)
    ensures
        final(reader).data() == old(reader).data(),
        final(reader).pos() >= old(reader).pos(),
        pr(res, final(reader).pos()) == sp_model_falloff(old(reader).data(), old(reader).pos(), version, *config),
{
    if 1600 <= version && version < 1602 {
        let flag = reader.read_i32()?;
        if flag == 1 {
            let color_blend_type: FalloffBlendType = reader.read_enum(config, "ModelFalloff.color_blend_type")?;
            let begin_color = reader.read_color()?;
            let end_color = reader.read_color()?;
            let pow = reader.read_f32()?;
            Ok(Some(FalloffParameter { color_blend_type, begin_color, end_color, pow }))
        } else {
            Ok(None)
        }
    } else {
        Ok(None)
    }
}

/// Parse a model renderer.
pub fn parse_model_renderer(reader: &mut BinaryReader, version: i32, config: &ParseConfig) -> (res: Result<ModelParams, Error>)
    ensures
        final(reader).data() == old(reader).data(),
        final(reader).pos() >= old(reader).pos(),
        prv(res, final(reader).pos()) == sp_model_renderer(old(reader).data(), old(reader).pos(), version, *config),
{
    let _type_check = reader.read_i32()?;
    let model_reference_type = if version >= 1602 {
        reader.read_enum::<ModelReferenceType>(config, "Model.mode")?
    } else {
        ModelReferenceType::File
    };
    let model_index = read_model_index(reader, version, model_reference_type)?;
    let billboard: BillboardType = reader.read_enum(config, "Model.billboard")?;
    let culling: CullingType = reader.read_enum(config, "Model.culling")?;
    let all_color = parse_all_type_color(reader, version, config)?;
    let falloff = parse_model_falloff(reader, version, config)?;
    Ok(ModelParams { model_reference_type, model_index, billboard, culling, all_color, falloff })
}

// ---------------------------------------------------------------- track

/// The head of a track renderer: UV type, three sizes, spline division,
/// smoothing and trail time type (both from version 1700).
pub open spec fn sp_track_head(d: Seq<u8>, p: int, version: i32, cfg: ParseConfig) -> PR<
    (NodeRendererTextureUVTypeParameter, (TrackSizeParameter, TrackSizeParameter, TrackSizeParameter), i32, Option<TrailSmoothingType>, Option<TrailTimeType>),
> {
    chain(sp_texture_uv_type(d, p, cfg), |uv: NodeRendererTextureUVTypeParameter, p: int|
    chain(sp_track_size(d, p, cfg), |s1: TrackSizeParameter, p: int|
    chain(sp_track_size(d, p, cfg), |s2: TrackSizeParameter, p: int|
    chain(sp_track_size(d, p, cfg), |s3: TrackSizeParameter, p: int|
    chain(sp_i32(d, p), |spline_division: i32, p: int|
    chain(
        if version >= 1700 {
            chain(sp_enum::<TrailSmoothingType>(d, p, cfg, "Track.smoothing"), |s: TrailSmoothingType, p: int| Ok((Some(s), p)))
        } else {
            Ok((None, p))
        },
        |smoothing: Option<TrailSmoothingType>, p: int|
    chain(sp_trail_time(d, p, version, cfg, "Track.trail_time_type"), |trail_time_type: Option<TrailTimeType>, p: int|
    Ok(((uv, (s1, s2, s3), spline_division, smoothing, trail_time_type), p)))))))))
}

/// A track renderer: the head, then six colors.
pub open spec fn sp_track(d: Seq<u8>, p: int, version: i32, cfg: ParseConfig) -> PR<SpecTrackParams> {
    chain(sp_i32(d, p), |_check: i32, p: int|
    chain(sp_track_head(d, p, version, cfg), |h: (NodeRendererTextureUVTypeParameter, (TrackSizeParameter, TrackSizeParameter, TrackSizeParameter), i32, Option<TrailSmoothingType>, Option<TrailTimeType>), p: int|
    chain(sp_three_colors(d, p, version, cfg), |a: (SpecAllTypeColorParameter, SpecAllTypeColorParameter, SpecAllTypeColorParameter), p: int|
    chain(sp_three_colors(d, p, version, cfg), |b: (SpecAllTypeColorParameter, SpecAllTypeColorParameter, SpecAllTypeColorParameter), p: int|
    Ok((SpecTrackParams {
        texture_uv_type: h.0,
        track_size_for: h.1.0,
        track_size_middle: h.1.1,
        track_size_back: h.1.2,
        spline_division: h.2,
        smoothing: h.3,
        trail_time_type: h.4,
        color_left: a.0,
        color_left_middle: a.1,
        color_center: a.2,
        color_center_middle: b.0,
        color_right: b.1,
        color_right_middle: b.2,
    }, p))))))
}

fn read_track_head(reader: &mut BinaryReader, version: i32, config: &ParseConfig) -> (res: Result<
    (NodeRendererTextureUVTypeParameter, (TrackSizeParameter, TrackSizeParameter, TrackSizeParameter), i32, Option<TrailSmoothingType>, Option<TrailTimeType>),
    Error,
>)
    ensures
        final(reader).data() == old(reader).data(),
        final(reader).pos() >= old(reader).pos(),
        pr(res, final(reader).pos()) == sp_track_head(old(reader).data(), old(reader).pos(), version, *config),
{
    let uv = parse_texture_uv_type(reader, config)?;
    let s1 = parse_track_size(reader, config)?;
    let s2 = parse_track_size(reader, config)?;
    let s3 = parse_track_size(reader, config)?;
    let spline_division = reader.read_i32()?;
    let smoothing = if version >= 1700 {
        Some(reader.read_enum::<TrailSmoothingType>(config, "Track.smoothing")?)
    } else {
        None
    };
    let trail_time_type = read_trail_time(reader, version, config, "Track.trail_time_type")?;
    Ok((uv, (s1, s2, s3), spline_division, smoothing, trail_time_type))
}

/// Parse a track renderer.
pub fn parse_track_renderer(reader: &mut BinaryReader, version: i32, config: &ParseConfig) -> (res: Result<TrackParams, Error>)
    ensures
        final(reader).data() == old(reader).data(),
        final(reader).pos() >= old(reader).pos(),
        prv(res, final(reader).pos()) == sp_track(old(reader).data(), old(reader).pos(), version, *config),
{
    let _type_check = reader.read_i32()?;
    let h = read_track_head(reader, version, config)?;
    let a = read_three_colors(reader, version, config)?;
    let b = read_three_colors(reader, version, config)?;
    Ok(TrackParams {
        texture_uv_type: h.0,
        track_size_for: h.1.0,
        track_size_middle: h.1.1,
        track_size_back: h.1.2,
        spline_division: h.2,
        smoothing: h.3,
        trail_time_type: h.4,
        color_left: a.0,
        color_left_middle: a.1,
        color_center: a.2,
        color_center_middle: b.0,
        color_right: b.1,
        color_right_middle: b.2,
    })
}

// ---------------------------------------------------------------- dispatch

/// The renderer of a node kind. Kinds without a renderer read a type check only.
pub open spec fn sp_renderer(d: Seq<u8>, p: int, node_type: EffectNodeType, version: i32, cfg: ParseConfig) -> PR<SpecRendererVariant> {
    match node_type {
        EffectNodeType::Sprite => chain(sp_sprite(d, p, version, cfg), |s: SpecSpriteParams, p: int|
            Ok((SpecRendererVariant::Sprite(s), p))),
        EffectNodeType::Ribbon => chain(sp_ribbon(d, p, version, cfg), |s: SpecRibbonParams, p: int|
            Ok((SpecRendererVariant::Ribbon(s), p))),
        EffectNodeType::Ring => chain(sp_ring(d, p, version, cfg), |s: SpecRingParams, p: int|
            Ok((SpecRendererVariant::Ring(s), p))),
        EffectNodeType::Model => chain(sp_model_renderer(d, p, version, cfg), |s: SpecModelParams, p: int|
            Ok((SpecRendererVariant::Model(s), p))),
        EffectNodeType::Track => chain(sp_track(d, p, version, cfg), |s: SpecTrackParams, p: int|
            Ok((SpecRendererVariant::Track(s), p))),
        _ => chain(sp_i32(d, p), |_check: i32, p: int| Ok((SpecRendererVariant::NoRenderer, p))),
    }
}

/// Parse the renderer of a node of the given kind.
pub fn parse_renderer(reader: &mut BinaryReader, node_type: EffectNodeType, version: i32, config: &ParseConfig) -> (res: Result<RendererVariant, Error>)
    ensures
        final(reader).data() == old(reader).data(),
        final(reader).pos() >= old(reader).pos(),
        prv(res, final(reader).pos()) == sp_renderer(old(reader).data(), old(reader).pos(), node_type, version, *config),
{
    match node_type {
        EffectNodeType::Sprite => {
            let params = parse_sprite_renderer(reader, version, config)?;
            Ok(RendererVariant::Sprite(params))
        },
        EffectNodeType::Ribbon => {
            let params = parse_ribbon_renderer(reader, version, config)?;
            Ok(RendererVariant::Ribbon(params))
        },
        EffectNodeType::Ring => {
            let params = parse_ring_renderer(reader, version, config)?;
            Ok(RendererVariant::Ring(params))
        },
        EffectNodeType::Model => {
            let params = parse_model_renderer(reader, version, config)?;
            Ok(RendererVariant::Model(params))
        },
        EffectNodeType::Track => {
            let params = parse_track_renderer(reader, version, config)?;
            Ok(RendererVariant::Track(params))
        },
        _ => {
            let _type_check = reader.read_i32()?;
            Ok(RendererVariant::NoRenderer)
        },
    }
}

} // verus!
