//! Parser configuration: unknown-enum policy and resource limits.

use vstd::prelude::*;

verus! {

/// What to do when an enum field holds a code this library does not know.
#[derive(Clone, Copy, Debug, PartialEq, Eq, Structural)]
pub enum UnknownEnumBehavior {
    /// Reject the file with [`crate::Error::InvalidEnumValue`].
    Error,
    /// Keep the raw code as the enum's `Unknown` variant and continue.
    Warn,
}

/// Upper bounds on counts read from untrusted input.
#[derive(Clone, Copy, Debug, PartialEq, Eq, Structural)]
pub struct ResourceLimits {
    /// Maximum number of paths in each resource table.
    pub max_resource_paths: usize,
    /// Maximum number of procedural models.
    pub max_procedural_models: usize,
    /// Maximum number of dynamic inputs.
    pub max_dynamic_inputs: usize,
    /// Maximum number of dynamic equations.
    pub max_dynamic_equations: usize,
    /// Maximum depth of the node tree (the root is at depth 0).
    pub max_node_depth: usize,
    /// Maximum number of children of one node.
    pub max_node_children: usize,
    /// Maximum number of samples in one F-curve.
    pub max_fcurve_samples: usize,
    /// Maximum number of frames in a model.
    pub max_frame_count: usize,
    /// Maximum number of vertices in a model frame (also bounds curve points and knots).
    pub max_vertices_per_frame: usize,
    /// Maximum number of faces in a model frame.
    pub max_faces_per_frame: usize,
}

/// Parser configuration.
#[derive(Clone, Copy, Debug, PartialEq, Eq, Structural)]
pub struct ParseConfig {
    /// Policy for enum codes this library does not know.
    pub unknown_enum_behavior: UnknownEnumBehavior,
    /// Resource limits.
    pub limits: ResourceLimits,
}

/// The default limits, as a specification value.
pub open spec fn spec_default_limits() -> ResourceLimits {
    ResourceLimits {
        max_resource_paths: 4096,
        max_procedural_models: 1024,
        max_dynamic_inputs: 1024,
        max_dynamic_equations: 1024,
        max_node_depth: 64,
        max_node_children: 4096,
        max_fcurve_samples: 1048576,
        max_frame_count: 4096,
        max_vertices_per_frame: 4194304,
        max_faces_per_frame: 4194304,
    }
}

/// The default (strict) configuration, as a specification value.
pub open spec fn spec_default_config() -> ParseConfig {
    ParseConfig { unknown_enum_behavior: UnknownEnumBehavior::Error, limits: spec_default_limits() }
}

impl Default for ResourceLimits {
    fn default() -> (r: Self)
        ensures
            r == spec_default_limits(),
    {
        ResourceLimits {
            max_resource_paths: 4096,
            max_procedural_models: 1024,
            max_dynamic_inputs: 1024,
            max_dynamic_equations: 1024,
            max_node_depth: 64,
            max_node_children: 4096,
            max_fcurve_samples: 1048576,
            max_frame_count: 4096,
            max_vertices_per_frame: 4194304,
            max_faces_per_frame: 4194304,
        }
    }
}

impl Default for ParseConfig {
    fn default() -> (r: Self)
        ensures
            r == spec_default_config(),
    {
        ParseConfig { unknown_enum_behavior: UnknownEnumBehavior::Error, limits: ResourceLimits::default() }
    }
}

} // verus!
