//! Model files.

use vstd::prelude::*;

use super::primitives::{Color, Vector2D, Vector3D};

verus! {

/// A model vertex.
#[derive(Clone, Copy, Debug, PartialEq, Eq, Structural)]
pub struct ModelVertex {
    /// Position.
    pub position: Vector3D,
    /// Normal.
    pub normal: Vector3D,
    /// Binormal.
    pub binormal: Vector3D,
    /// Tangent.
    pub tangent: Vector3D,
    /// First UV.
    pub uv1: Vector2D,
    /// Second UV (the first one before version 6).
    pub uv2: Vector2D,
    /// Vertex color (white before version 1).
    pub vcolor: Color,
}

/// A triangle.
#[derive(Clone, Copy, Debug, PartialEq, Eq, Structural)]
pub struct ModelFace {
    /// First vertex.
    pub i0: i32,
    /// Second vertex.
    pub i1: i32,
    /// Third vertex.
    pub i2: i32,
}

/// A model frame.
#[derive(Clone, Debug, PartialEq)]
pub struct ModelFrame {
    /// Vertices.
    pub vertices: Vec<ModelVertex>,
    /// Faces.
    pub faces: Vec<ModelFace>,
}

/// Model of [`ModelFrame`].
pub struct SpecModelFrame {
    /// Vertices.
    pub vertices: Seq<ModelVertex>,
    /// Faces.
    pub faces: Seq<ModelFace>,
}

impl View for ModelFrame {
    type V = SpecModelFrame;

    open spec fn view(&self) -> SpecModelFrame {
        SpecModelFrame {
            vertices: self.vertices@,
            faces: self.faces@,
        }
    }
}

/// A parsed `.efkmodel` file.
#[derive(Clone, Debug, PartialEq)]
pub struct ModelFile {
    /// Version.
    pub version: i32,
    /// Frames.
    pub frames: Vec<ModelFrame>,
}

/// Model of [`ModelFile`].
pub struct SpecModelFile {
    /// Version.
    pub version: i32,
    /// Frames.
    pub frames: Seq<SpecModelFrame>,
}

impl View for ModelFile {
    type V = SpecModelFile;

    open spec fn view(&self) -> SpecModelFile {
        SpecModelFile {
            version: self.version,
            frames: self.frames@.map_values(|x: ModelFrame| x@),
        }
    }
}

} // verus!
