//! Data types produced by the parsers.
//!
//! Types that hold vectors or strings come with a model (`Spec...`) used by the
//! parsers' specifications; the model replaces `Vec` with `Seq` and `String`
//! with `Seq<char>`.

pub mod alpha_cutoff;
pub mod collision;
pub mod color;
pub mod common_values;
pub mod curve;
pub mod custom_data;
pub mod depth;
pub mod dynamic_equation;
pub mod effect;
pub mod enums;
pub mod fcurve;
pub mod force_field;
pub mod gpu_particles;
pub mod gradient;
pub mod kill_rules;
pub mod material;
pub mod model;
pub mod node;
pub mod params;
pub mod primitives;
pub mod procedural_model;
pub mod renderer;
pub mod renderer_common;
pub mod sound;
pub mod uv;
