//! Procedural models.

use vstd::prelude::*;

use super::enums::{ProceduralModelAxisType, ProceduralModelCrossSectionType, ProceduralModelPrimitiveType, ProceduralModelType};
use super::primitives::{Color, Vector2D, Vector3D};

verus! {

/// Mesh procedural model data.
#[derive(Clone, Copy, Debug, PartialEq, Eq, Structural)]
pub struct MeshParams {
    /// Begin angle.
    pub angle_begin: u32,
    /// End angle.
    pub angle_end: u32,
    /// Axial divisions.
    pub divisions_axial: i32,
    /// Radial divisions.
    pub divisions_radial: i32,
    /// Rotation (v1608+).
    pub rotate: Option<u32>,
}

/// Ribbon procedural model data.
#[derive(Clone, Copy, Debug, PartialEq, Eq, Structural)]
pub struct ProceduralRibbonParams {
    /// Cross section.
    pub cross_section: ProceduralModelCrossSectionType,
    /// Rotation (v1608+).
    pub rotate: Option<u32>,
    /// Vertices.
    pub vertices: i32,
    /// Sizes.
    pub ribbon_sizes: Vector2D,
    /// Angles.
    pub ribbon_angles: Vector2D,
    /// Noises.
    pub ribbon_noises: Vector2D,
    /// Count.
    pub count: i32,
}

/// Primitive of a procedural model.
#[derive(Clone, Copy, Debug, PartialEq, Eq, Structural)]
pub enum PrimitiveParams {
    /// Sphere.
    Sphere {
        /// Radius.
        radius: u32,
        /// Minimum depth.
        depth_min: u32,
        /// Maximum depth.
        depth_max: u32,
    },
    /// Cone.
    Cone {
        /// Radius.
        radius: u32,
        /// Depth.
        depth: u32,
    },
    /// Cylinder.
    Cylinder {
        /// First radius.
        radius1: u32,
        /// Second radius.
        radius2: u32,
        /// Depth.
        depth: u32,
    },
    /// Spline.
    Spline4 {
        /// First point.
        point1: Vector2D,
        /// Second point.
        point2: Vector2D,
        /// Third point.
        point3: Vector2D,
        /// Fourth point.
        point4: Vector2D,
    },
}

/// 2D noise.
#[derive(Clone, Copy, Debug, PartialEq, Eq, Structural)]
pub struct NoiseParams2 {
    /// Frequency.
    pub frequency: Vector2D,
    /// Offset.
    pub offset: Vector2D,
    /// Power.
    pub power: Vector2D,
}

/// 3D noise.
#[derive(Clone, Copy, Debug, PartialEq, Eq, Structural)]
pub struct NoiseParams3 {
    /// Frequency.
    pub frequency: Vector3D,
    /// Offset.
    pub offset: Vector3D,
    /// Power.
    pub power: Vector3D,
}

/// Noise of a procedural model.
#[derive(Clone, Copy, Debug, PartialEq, Eq, Structural)]
pub struct ProceduralModelNoise {
    /// Tilt.
    pub tilt: NoiseParams2,
    /// Wave.
    pub wave: NoiseParams3,
    /// Curl.
    pub curl: NoiseParams3,
    /// Vertex color noise (v1608+).
    pub vertex_color: Option<NoiseParams3>,
}

/// A 3x3 grid of vertex colors.
#[derive(Clone, Copy, Debug, PartialEq, Eq, Structural)]
pub struct ColorGrid {
    /// Cell 0.
    pub c0: Color,
    /// Cell 1.
    pub c1: Color,
    /// Cell 2.
    pub c2: Color,
    /// Cell 3.
    pub c3: Color,
    /// Cell 4.
    pub c4: Color,
    /// Cell 5.
    pub c5: Color,
    /// Cell 6 (white before v1608).
    pub c6: Color,
    /// Cell 7 (white before v1608).
    pub c7: Color,
    /// Cell 8 (white before v1608).
    pub c8: Color,
}

/// A procedural model.
#[derive(Clone, Copy, Debug, PartialEq, Eq, Structural)]
pub struct ProceduralModelParameter {
    /// Kind.
    pub model_type: ProceduralModelType,
    /// Primitive.
    pub primitive_type: ProceduralModelPrimitiveType,
    /// Axis.
    pub axis_type: ProceduralModelAxisType,
    /// Mesh data.
    pub mesh_params: Option<MeshParams>,
    /// Ribbon data.
    pub ribbon_params: Option<ProceduralRibbonParams>,
    /// Primitive data.
    pub primitive_params: PrimitiveParams,
    /// Noise.
    pub noise: ProceduralModelNoise,
    /// Vertex colors.
    pub vertex_colors: ColorGrid,
    /// Color center (v1608+).
    pub color_center_position: Option<Vector2D>,
    /// Color area (v1608+).
    pub color_center_area: Option<Vector2D>,
    /// UV position (v1608+).
    pub uv_position: Option<Vector2D>,
    /// UV size (v1608+).
    pub uv_size: Option<Vector2D>,
}

} // verus!
