//! Transform, spawn and easing parameters.

use vstd::prelude::*;

use super::enums::{CircleDistributionType, DirectionalAxisType, Easing3Type, LineDistributionType, ModelCoordinateSpace, ModelReferenceType, ModelSpawnType, NonMatchingLODBehaviour, NurbsCurveLoopType, SpawnAxisType};
use super::fcurve::{FCurveScalar, FCurveVector3D, SpecFCurveScalar, SpecFCurveVector3D};
use super::primitives::{EasingFloatWithoutRandom, RandomFloat, RandomVector3D, RefMinMax, Vector3D};

verus! {

/// Steering towards a moving parent.
#[derive(Clone, Copy, Debug, PartialEq, Eq, Structural)]
pub struct SteeringBehaviorParam {
    /// Maximum follow speed.
    pub max_follow_speed: RandomFloat,
    /// Steering speed.
    pub steering_speed: RandomFloat,
}

/// Level-of-detail settings of a node.
#[derive(Clone, Copy, Debug, PartialEq, Eq, Structural)]
pub struct LODsParam {
    /// Bit set of matching LOD levels.
    pub matching_lods: i32,
    /// Behaviour when the LOD does not match.
    pub lod_behaviour: NonMatchingLODBehaviour,
}

/// Middle point of a float easing.
#[derive(Clone, Copy, Debug, PartialEq, Eq, Structural)]
pub struct MiddlePointFloat {
    /// Equations for the middle.
    pub ref_eq_m: RefMinMax,
    /// Middle value.
    pub middle: RandomFloat,
}

/// Middle point of a vector easing.
#[derive(Clone, Copy, Debug, PartialEq, Eq, Structural)]
pub struct MiddlePointVector3D {
    /// Equations for the middle.
    pub ref_eq_m: RefMinMax,
    /// Middle value.
    pub middle: RandomVector3D,
}

/// A float easing with optional middle point and per-channel easing.
#[derive(Clone, Debug, PartialEq)]
pub struct ParameterEasingFloat {
    /// Equations for the start.
    pub ref_eq_s: RefMinMax,
    /// Equations for the end.
    pub ref_eq_e: RefMinMax,
    /// Start value.
    pub start: RandomFloat,
    /// End value.
    pub end: RandomFloat,
    /// Middle point, if enabled.
    pub middle: Option<MiddlePointFloat>,
    /// Easing curve.
    pub easing_type: Easing3Type,
    /// Cubic coefficients (only for `StartEndSpeed`).
    pub easing_params: Option<EasingFloatWithoutRandom>,
    /// Packed channel mapping.
    pub channel: i32,
    /// Per-channel easing, if enabled (one entry).
    pub individual_types: Option<Vec<Easing3Type>>,
}

/// Model of [`ParameterEasingFloat`].
pub struct SpecParameterEasingFloat {
    /// Equations for the start.
    pub ref_eq_s: RefMinMax,
    /// Equations for the end.
    pub ref_eq_e: RefMinMax,
    /// Start value.
    pub start: RandomFloat,
    /// End value.
    pub end: RandomFloat,
    /// Middle point, if enabled.
    pub middle: Option<MiddlePointFloat>,
    /// Easing curve.
    pub easing_type: Easing3Type,
    /// Cubic coefficients (only for `StartEndSpeed`).
    pub easing_params: Option<EasingFloatWithoutRandom>,
    /// Packed channel mapping.
    pub channel: i32,
    /// Per-channel easing, if enabled (one entry).
    pub individual_types: Option<Seq<Easing3Type>>,
}

impl View for ParameterEasingFloat {
    type V = SpecParameterEasingFloat;

    open spec fn view(&self) -> SpecParameterEasingFloat {
        SpecParameterEasingFloat {
            ref_eq_s: self.ref_eq_s,
            ref_eq_e: self.ref_eq_e,
            start: self.start,
            end: self.end,
            middle: self.middle,
            easing_type: self.easing_type,
            easing_params: self.easing_params,
            channel: self.channel,
            individual_types: match self.individual_types { Some(x) => Some(x@), None => None },
        }
    }
}

/// A vector easing with optional middle point and per-channel easing.
#[derive(Clone, Debug, PartialEq)]
pub struct ParameterEasingVector3D {
    /// Equations for the start.
    pub ref_eq_s: RefMinMax,
    /// Equations for the end.
    pub ref_eq_e: RefMinMax,
    /// Start value.
    pub start: RandomVector3D,
    /// End value.
    pub end: RandomVector3D,
    /// Middle point, if enabled.
    pub middle: Option<MiddlePointVector3D>,
    /// Easing curve.
    pub easing_type: Easing3Type,
    /// Cubic coefficients (only for `StartEndSpeed`).
    pub easing_params: Option<EasingFloatWithoutRandom>,
    /// Packed channel mapping.
    pub channel: i32,
    /// Per-channel easing, if enabled (three entries).
    pub individual_types: Option<Vec<Easing3Type>>,
}

/// Model of [`ParameterEasingVector3D`].
pub struct SpecParameterEasingVector3D {
    /// Equations for the start.
    pub ref_eq_s: RefMinMax,
    /// Equations for the end.
    pub ref_eq_e: RefMinMax,
    /// Start value.
    pub start: RandomVector3D,
    /// End value.
    pub end: RandomVector3D,
    /// Middle point, if enabled.
    pub middle: Option<MiddlePointVector3D>,
    /// Easing curve.
    pub easing_type: Easing3Type,
    /// Cubic coefficients (only for `StartEndSpeed`).
    pub easing_params: Option<EasingFloatWithoutRandom>,
    /// Packed channel mapping.
    pub channel: i32,
    /// Per-channel easing, if enabled (three entries).
    pub individual_types: Option<Seq<Easing3Type>>,
}

impl View for ParameterEasingVector3D {
    type V = SpecParameterEasingVector3D;

    open spec fn view(&self) -> SpecParameterEasingVector3D {
        SpecParameterEasingVector3D {
            ref_eq_s: self.ref_eq_s,
            ref_eq_e: self.ref_eq_e,
            start: self.start,
            end: self.end,
            middle: self.middle,
            easing_type: self.easing_type,
            easing_params: self.easing_params,
            channel: self.channel,
            individual_types: match self.individual_types { Some(x) => Some(x@), None => None },
        }
    }
}

/// Translation of a node.
#[derive(Clone, Debug, PartialEq)]
pub enum TranslationParameter {
    /// No translation.
    NoTranslation,
    /// A fixed position.
    Fixed {
        /// Equation.
        ref_eq: i32,
        /// Position.
        position: Vector3D,
    },
    /// Position, velocity and acceleration.
    Pva {
        /// Equations for the position.
        ref_eq_p: RefMinMax,
        /// Equations for the velocity.
        ref_eq_v: RefMinMax,
        /// Equations for the acceleration.
        ref_eq_a: RefMinMax,
        /// Position.
        position: RandomVector3D,
        /// Velocity.
        velocity: RandomVector3D,
        /// Acceleration.
        acceleration: RandomVector3D,
    },
    /// An easing.
    Easing(Box<ParameterEasingVector3D>),
    /// An F-curve.
    FCurve(Box<FCurveVector3D>),
    /// Movement along a NURBS curve.
    NurbsCurve {
        /// Curve index.
        index: i32,
        /// Scale.
        scale: u32,
        /// Speed along the curve.
        move_speed: u32,
        /// Loop mode.
        loop_type: NurbsCurveLoopType,
    },
    /// An offset towards the viewer.
    ViewOffset {
        /// Distance towards the viewer.
        distance: RandomFloat,
    },
}

/// Model of [`TranslationParameter`].
pub enum SpecTranslationParameter {
    /// No translation.
    NoTranslation,
    /// A fixed position.
    Fixed {
        /// Equation.
        ref_eq: i32,
        /// Position.
        position: Vector3D,
    },
    /// Position, velocity and acceleration.
    Pva {
        /// Equations for the position.
        ref_eq_p: RefMinMax,
        /// Equations for the velocity.
        ref_eq_v: RefMinMax,
        /// Equations for the acceleration.
        ref_eq_a: RefMinMax,
        /// Position.
        position: RandomVector3D,
        /// Velocity.
        velocity: RandomVector3D,
        /// Acceleration.
        acceleration: RandomVector3D,
    },
    /// An easing.
    Easing(SpecParameterEasingVector3D),
    /// An F-curve.
    FCurve(SpecFCurveVector3D),
    /// Movement along a NURBS curve.
    NurbsCurve {
        /// Curve index.
        index: i32,
        /// Scale.
        scale: u32,
        /// Speed along the curve.
        move_speed: u32,
        /// Loop mode.
        loop_type: NurbsCurveLoopType,
    },
    /// An offset towards the viewer.
    ViewOffset {
        /// Distance towards the viewer.
        distance: RandomFloat,
    },
}

impl View for TranslationParameter {
    type V = SpecTranslationParameter;

    open spec fn view(&self) -> SpecTranslationParameter {
        match *self {
            TranslationParameter::NoTranslation => SpecTranslationParameter::NoTranslation,
            TranslationParameter::Fixed { ref_eq, position } => SpecTranslationParameter::Fixed {
                ref_eq: ref_eq,
                position: position,
            },
            TranslationParameter::Pva { ref_eq_p, ref_eq_v, ref_eq_a, position, velocity, acceleration } => SpecTranslationParameter::Pva {
                ref_eq_p: ref_eq_p,
                ref_eq_v: ref_eq_v,
                ref_eq_a: ref_eq_a,
                position: position,
                velocity: velocity,
                acceleration: acceleration,
            },
            TranslationParameter::Easing(v0) => SpecTranslationParameter::Easing(v0@),
            TranslationParameter::FCurve(v0) => SpecTranslationParameter::FCurve(v0@),
            TranslationParameter::NurbsCurve { index, scale, move_speed, loop_type } => SpecTranslationParameter::NurbsCurve {
                index: index,
                scale: scale,
                move_speed: move_speed,
                loop_type: loop_type,
            },
            TranslationParameter::ViewOffset { distance } => SpecTranslationParameter::ViewOffset {
                distance: distance,
            },
        }
    }
}

/// Rotation of a node.
#[derive(Clone, Debug, PartialEq)]
pub enum RotationParameter {
    /// No rotation.
    NoRotation,
    /// A fixed rotation.
    Fixed {
        /// Equation.
        ref_eq: i32,
        /// Rotation.
        rotation: Vector3D,
    },
    /// Rotation, velocity and acceleration.
    Pva {
        /// Equations for the rotation.
        ref_eq_p: RefMinMax,
        /// Equations for the velocity.
        ref_eq_v: RefMinMax,
        /// Equations for the acceleration.
        ref_eq_a: RefMinMax,
        /// Rotation.
        rotation: RandomVector3D,
        /// Angular velocity.
        velocity: RandomVector3D,
        /// Angular acceleration.
        acceleration: RandomVector3D,
    },
    /// An easing.
    Easing(Box<ParameterEasingVector3D>),
    /// Rotation about an axis.
    AxisPva {
        /// Axis.
        axis: RandomVector3D,
        /// Angle.
        rotation: RandomFloat,
        /// Angular velocity.
        velocity: RandomFloat,
        /// Angular acceleration.
        acceleration: RandomFloat,
    },
    /// Eased rotation about an axis.
    AxisEasing {
        /// Axis.
        axis: RandomVector3D,
        /// Angle easing.
        easing: ParameterEasingFloat,
    },
    /// An F-curve.
    FCurve(Box<FCurveVector3D>),
    /// Face the viewer.
    RotateToViewpoint,
    /// Align with the velocity.
    Velocity {
        /// Axis aligned with the velocity.
        axis: DirectionalAxisType,
    },
}

/// Model of [`RotationParameter`].
pub enum SpecRotationParameter {
    /// No rotation.
    NoRotation,
    /// A fixed rotation.
    Fixed {
        /// Equation.
        ref_eq: i32,
        /// Rotation.
        rotation: Vector3D,
    },
    /// Rotation, velocity and acceleration.
    Pva {
        /// Equations for the rotation.
        ref_eq_p: RefMinMax,
        /// Equations for the velocity.
        ref_eq_v: RefMinMax,
        /// Equations for the acceleration.
        ref_eq_a: RefMinMax,
        /// Rotation.
        rotation: RandomVector3D,
        /// Angular velocity.
        velocity: RandomVector3D,
        /// Angular acceleration.
        acceleration: RandomVector3D,
    },
    /// An easing.
    Easing(SpecParameterEasingVector3D),
    /// Rotation about an axis.
    AxisPva {
        /// Axis.
        axis: RandomVector3D,
        /// Angle.
        rotation: RandomFloat,
        /// Angular velocity.
        velocity: RandomFloat,
        /// Angular acceleration.
        acceleration: RandomFloat,
    },
    /// Eased rotation about an axis.
    AxisEasing {
        /// Axis.
        axis: RandomVector3D,
        /// Angle easing.
        easing: SpecParameterEasingFloat,
    },
    /// An F-curve.
    FCurve(SpecFCurveVector3D),
    /// Face the viewer.
    RotateToViewpoint,
    /// Align with the velocity.
    Velocity {
        /// Axis aligned with the velocity.
        axis: DirectionalAxisType,
    },
}

impl View for RotationParameter {
    type V = SpecRotationParameter;

    open spec fn view(&self) -> SpecRotationParameter {
        match *self {
            RotationParameter::NoRotation => SpecRotationParameter::NoRotation,
            RotationParameter::Fixed { ref_eq, rotation } => SpecRotationParameter::Fixed {
                ref_eq: ref_eq,
                rotation: rotation,
            },
            RotationParameter::Pva { ref_eq_p, ref_eq_v, ref_eq_a, rotation, velocity, acceleration } => SpecRotationParameter::Pva {
                ref_eq_p: ref_eq_p,
                ref_eq_v: ref_eq_v,
                ref_eq_a: ref_eq_a,
                rotation: rotation,
                velocity: velocity,
                acceleration: acceleration,
            },
            RotationParameter::Easing(v0) => SpecRotationParameter::Easing(v0@),
            RotationParameter::AxisPva { axis, rotation, velocity, acceleration } => SpecRotationParameter::AxisPva {
                axis: axis,
                rotation: rotation,
                velocity: velocity,
                acceleration: acceleration,
            },
            RotationParameter::AxisEasing { axis, easing } => SpecRotationParameter::AxisEasing {
                axis: axis,
                easing: easing@,
            },
            RotationParameter::FCurve(v0) => SpecRotationParameter::FCurve(v0@),
            RotationParameter::RotateToViewpoint => SpecRotationParameter::RotateToViewpoint,
            RotationParameter::Velocity { axis } => SpecRotationParameter::Velocity {
                axis: axis,
            },
        }
    }
}

/// Scaling of a node.
#[derive(Clone, Debug, PartialEq)]
pub enum ScalingParameter {
    /// No scaling.
    NoScaling,
    /// A fixed scale.
    Fixed {
        /// Equation.
        ref_eq: i32,
        /// Scale.
        scale: Vector3D,
    },
    /// Scale, velocity and acceleration.
    Pva {
        /// Equations for the scale.
        ref_eq_p: RefMinMax,
        /// Equations for the velocity.
        ref_eq_v: RefMinMax,
        /// Equations for the acceleration.
        ref_eq_a: RefMinMax,
        /// Scale.
        scale: RandomVector3D,
        /// Velocity.
        velocity: RandomVector3D,
        /// Acceleration.
        acceleration: RandomVector3D,
    },
    /// An easing.
    Easing(Box<ParameterEasingVector3D>),
    /// Uniform scale, velocity and acceleration.
    SinglePva {
        /// Scale.
        scale: RandomFloat,
        /// Velocity.
        velocity: RandomFloat,
        /// Acceleration.
        acceleration: RandomFloat,
    },
    /// A uniform easing.
    SingleEasing(Box<ParameterEasingFloat>),
    /// An F-curve.
    FCurve(Box<FCurveVector3D>),
    /// A uniform F-curve.
    SingleFCurve(Box<FCurveScalar>),
}

/// Model of [`ScalingParameter`].
pub enum SpecScalingParameter {
    /// No scaling.
    NoScaling,
    /// A fixed scale.
    Fixed {
        /// Equation.
        ref_eq: i32,
        /// Scale.
        scale: Vector3D,
    },
    /// Scale, velocity and acceleration.
    Pva {
        /// Equations for the scale.
        ref_eq_p: RefMinMax,
        /// Equations for the velocity.
        ref_eq_v: RefMinMax,
        /// Equations for the acceleration.
        ref_eq_a: RefMinMax,
        /// Scale.
        scale: RandomVector3D,
        /// Velocity.
        velocity: RandomVector3D,
        /// Acceleration.
        acceleration: RandomVector3D,
    },
    /// An easing.
    Easing(SpecParameterEasingVector3D),
    /// Uniform scale, velocity and acceleration.
    SinglePva {
        /// Scale.
        scale: RandomFloat,
        /// Velocity.
        velocity: RandomFloat,
        /// Acceleration.
        acceleration: RandomFloat,
    },
    /// A uniform easing.
    SingleEasing(SpecParameterEasingFloat),
    /// An F-curve.
    FCurve(SpecFCurveVector3D),
    /// A uniform F-curve.
    SingleFCurve(SpecFCurveScalar),
}

impl View for ScalingParameter {
    type V = SpecScalingParameter;

    open spec fn view(&self) -> SpecScalingParameter {
        match *self {
            ScalingParameter::NoScaling => SpecScalingParameter::NoScaling,
            ScalingParameter::Fixed { ref_eq, scale } => SpecScalingParameter::Fixed {
                ref_eq: ref_eq,
                scale: scale,
            },
            ScalingParameter::Pva { ref_eq_p, ref_eq_v, ref_eq_a, scale, velocity, acceleration } => SpecScalingParameter::Pva {
                ref_eq_p: ref_eq_p,
                ref_eq_v: ref_eq_v,
                ref_eq_a: ref_eq_a,
                scale: scale,
                velocity: velocity,
                acceleration: acceleration,
            },
            ScalingParameter::Easing(v0) => SpecScalingParameter::Easing(v0@),
            ScalingParameter::SinglePva { scale, velocity, acceleration } => SpecScalingParameter::SinglePva {
                scale: scale,
                velocity: velocity,
                acceleration: acceleration,
            },
            ScalingParameter::SingleEasing(v0) => SpecScalingParameter::SingleEasing(v0@),
            ScalingParameter::FCurve(v0) => SpecScalingParameter::FCurve(v0@),
            ScalingParameter::SingleFCurve(v0) => SpecScalingParameter::SingleFCurve(v0@),
        }
    }
}

/// Where instances are spawned.
#[derive(Clone, Copy, Debug, PartialEq, Eq, Structural)]
pub enum SpawnLocationParameter {
    /// At a point.
    Point {
        /// Location.
        location: RandomVector3D,
    },
    /// On a sphere.
    Sphere {
        /// Radius.
        radius: RandomFloat,
        /// Rotation about X.
        rotation_x: RandomFloat,
        /// Rotation about Y.
        rotation_y: RandomFloat,
    },
    /// On a model.
    Model {
        /// Model source.
        reference: ModelReferenceType,
        /// Model index.
        index: i32,
        /// Point selection.
        spawn_type: ModelSpawnType,
        /// Coordinate space (v1802+).
        coordinate: Option<ModelCoordinateSpace>,
    },
    /// On a circle.
    Circle {
        /// Divisions.
        division: i32,
        /// Radius.
        radius: RandomFloat,
        /// Start angle.
        angle_start: RandomFloat,
        /// End angle.
        angle_end: RandomFloat,
        /// Distribution.
        distribution_type: CircleDistributionType,
        /// Axis.
        axis_direction: SpawnAxisType,
        /// Angle noise.
        angle_noise: RandomFloat,
    },
    /// On a line.
    Line {
        /// Divisions.
        division: i32,
        /// Start.
        position_start: RandomVector3D,
        /// End.
        position_end: RandomVector3D,
        /// Noise.
        position_noise: RandomFloat,
        /// Distribution.
        distribution_type: LineDistributionType,
    },
}

} // verus!
