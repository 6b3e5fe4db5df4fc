//! Error types for the effekseer_reader crate.

use vstd::prelude::*;

verus! {

/// A four-byte identifier such as a file magic or a chunk id.
#[derive(Clone, Copy, Debug, PartialEq, Eq, Structural)]
pub struct FourCC(pub u8, pub u8, pub u8, pub u8);

/// Why a chunk of a container was rejected.
#[derive(Clone, Copy, Debug, PartialEq, Eq, Structural)]
pub enum ChunkProblem {
    /// A chunk header declared a negative payload size.
    NegativeSize {
        /// The chunk's four-byte identifier.
        chunk_id: FourCC,
        /// The declared size.
        size: i32,
        /// Byte position of the chunk header.
        position: usize,
    },
    /// The compressed editor data could not be inflated.
    DecompressionFailed,
}

/// Errors that can occur during parsing of Effekseer binary files.
#[derive(Clone, Debug, PartialEq, Eq)]
pub enum Error {
    /// Invalid magic bytes at the start of a file or chunk.
    InvalidMagic {
        /// The expected magic.
        expected: FourCC,
        /// The bytes found instead.
        got: FourCC,
    },
    /// The file version is not supported by this parser.
    UnsupportedVersion {
        /// The version number read from the file.
        version: i32,
    },
    /// Unexpected end of file while reading data.
    UnexpectedEof {
        /// The byte position where the read was attempted.
        position: usize,
        /// The number of bytes the read needed.
        expected_bytes: usize,
    },
    /// An enum field contained an unrecognized discriminant value.
    InvalidEnumValue {
        /// The name of the field being parsed.
        field: &'static str,
        /// The raw integer value that was not recognized.
        value: i32,
    },
    /// A UTF-16 encoded string could not be decoded.
    Utf16DecodeError {
        /// The byte position of the string's first code unit.
        position: usize,
    },
    /// A UTF-8 encoded string could not be decoded.
    Utf8DecodeError {
        /// The byte position of the string's first byte.
        position: usize,
    },
    /// A resource count exceeded the configured limit.
    ResourceLimitExceeded {
        /// The name of the resource being counted.
        field: &'static str,
        /// The actual count encountered.
        count: usize,
        /// The configured maximum.
        max: usize,
    },
    /// A chunk in a container file is invalid.
    InvalidChunk {
        /// What is wrong with the chunk.
        problem: ChunkProblem,
    },
    /// A required chunk was not found in the container file.
    MissingChunk {
        /// The identifier of the chunk that was expected.
        chunk_id: FourCC,
    },
    /// An error occurred while reading the `.efkpkg` zip archive.
    ZipError(String),
    /// An error occurred while parsing `metafile.json` in a `.efkpkg`.
    JsonError(String),
    /// The `.efkpkg` did not contain the required `metafile.json` entry.
    MissingMetafile,
    /// A file listed in `metafile.json` was not present in the zip archive.
    MissingEntry(String),
    /// The `.efkpkg` contained no file of type `Effect`.
    NoEffectInPackage,
}

} // verus!
