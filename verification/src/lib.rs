//! Verified parser for Effekseer particle effect files.
//!
//! Supports `.efkefc`, `.efk`, `.efkmat`, `.efkmodel`, and NURBS curve formats
//! for Effekseer versions 1500 (v15) through 1810 (v18).

pub mod config;
pub mod error;
pub mod reader;
pub mod version;
pub mod types;
pub mod parser;
pub mod eval;
