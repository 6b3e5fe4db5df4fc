//! Evaluation helpers that work on integers: dynamic equation decoding.

pub mod dynamic_equation;
