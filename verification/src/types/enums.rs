use vstd::prelude::*;

use crate::reader::IsUnknown;

verus! {

/// How a random color range is interpreted.
///
/// Values not listed are kept as `Unknown` with their raw code.
#[derive(Clone, Copy, Debug, PartialEq, Eq, Structural)]
pub enum ColorMode {
    /// Code `0`.
    Rgba,
    /// Code `1`.
    Hsva,
    /// A code this library does not know.
    Unknown(i32),
}

impl IsUnknown for ColorMode {
    open spec fn spec_from_code(raw: i32) -> Self {
        if raw == 0 {
            ColorMode::Rgba
        } else if raw == 1 {
            ColorMode::Hsva
        } else {
            ColorMode::Unknown(raw)
        }
    }

    fn from_code(raw: i32) -> (r: Self) {
        if raw == 0 {
            ColorMode::Rgba
        } else if raw == 1 {
            ColorMode::Hsva
        } else {
            ColorMode::Unknown(raw)
        }
    }

    open spec fn spec_is_unknown(&self) -> bool {
        self is Unknown
    }

    fn is_unknown(&self) -> (b: bool) {
        match self {
            ColorMode::Unknown(_) => true,
            _ => false,
        }
    }
}

/// Source of a trigger.
///
/// Values not listed are kept as `Unknown` with their raw code.
#[derive(Clone, Copy, Debug, PartialEq, Eq, Structural)]
pub enum TriggerType {
    /// Code `0`.
    NoTrigger,
    /// Code `1`.
    ExternalTrigger,
    /// A code this library does not know.
    Unknown(i32),
}

impl IsUnknown for TriggerType {
    open spec fn spec_from_code(raw: i32) -> Self {
        if raw == 0 {
            TriggerType::NoTrigger
        } else if raw == 1 {
            TriggerType::ExternalTrigger
        } else {
            TriggerType::Unknown(raw)
        }
    }

    fn from_code(raw: i32) -> (r: Self) {
        if raw == 0 {
            TriggerType::NoTrigger
        } else if raw == 1 {
            TriggerType::ExternalTrigger
        } else {
            TriggerType::Unknown(raw)
        }
    }

    open spec fn spec_is_unknown(&self) -> bool {
        self is Unknown
    }

    fn is_unknown(&self) -> (b: bool) {
        match self {
            TriggerType::Unknown(_) => true,
            _ => false,
        }
    }
}

/// How a child inherits a transform channel from its parent.
///
/// Values not listed are kept as `Unknown` with their raw code.
#[derive(Clone, Copy, Debug, PartialEq, Eq, Structural)]
pub enum BindType {
    /// Code `0`.
    NotBind,
    /// Code `1`.
    WhenCreating,
    /// Code `2`.
    Always,
    /// Code `3`.
    NotBindRoot,
    /// A code this library does not know.
    Unknown(i32),
}

impl IsUnknown for BindType {
    open spec fn spec_from_code(raw: i32) -> Self {
        if raw == 0 {
            BindType::NotBind
        } else if raw == 1 {
            BindType::WhenCreating
        } else if raw == 2 {
            BindType::Always
        } else if raw == 3 {
            BindType::NotBindRoot
        } else {
            BindType::Unknown(raw)
        }
    }

    fn from_code(raw: i32) -> (r: Self) {
        if raw == 0 {
            BindType::NotBind
        } else if raw == 1 {
            BindType::WhenCreating
        } else if raw == 2 {
            BindType::Always
        } else if raw == 3 {
            BindType::NotBindRoot
        } else {
            BindType::Unknown(raw)
        }
    }

    open spec fn spec_is_unknown(&self) -> bool {
        self is Unknown
    }

    fn is_unknown(&self) -> (b: bool) {
        match self {
            BindType::Unknown(_) => true,
            _ => false,
        }
    }
}

/// How a child inherits its parent's translation.
///
/// Values not listed are kept as `Unknown` with their raw code.
#[derive(Clone, Copy, Debug, PartialEq, Eq, Structural)]
pub enum TranslationParentBindType {
    /// Code `0`.
    NotBind,
    /// Code `1`.
    WhenCreating,
    /// Code `2`.
    Always,
    /// Code `3`.
    NotBindRoot,
    /// Code `4`.
    NotBindFollowParent,
    /// Code `5`.
    WhenCreatingFollowParent,
    /// A code this library does not know.
    Unknown(i32),
}

impl IsUnknown for TranslationParentBindType {
    open spec fn spec_from_code(raw: i32) -> Self {
        if raw == 0 {
            TranslationParentBindType::NotBind
        } else if raw == 1 {
            TranslationParentBindType::WhenCreating
        } else if raw == 2 {
            TranslationParentBindType::Always
        } else if raw == 3 {
            TranslationParentBindType::NotBindRoot
        } else if raw == 4 {
            TranslationParentBindType::NotBindFollowParent
        } else if raw == 5 {
            TranslationParentBindType::WhenCreatingFollowParent
        } else {
            TranslationParentBindType::Unknown(raw)
        }
    }

    fn from_code(raw: i32) -> (r: Self) {
        if raw == 0 {
            TranslationParentBindType::NotBind
        } else if raw == 1 {
            TranslationParentBindType::WhenCreating
        } else if raw == 2 {
            TranslationParentBindType::Always
        } else if raw == 3 {
            TranslationParentBindType::NotBindRoot
        } else if raw == 4 {
            TranslationParentBindType::NotBindFollowParent
        } else if raw == 5 {
            TranslationParentBindType::WhenCreatingFollowParent
        } else {
            TranslationParentBindType::Unknown(raw)
        }
    }

    open spec fn spec_is_unknown(&self) -> bool {
        self is Unknown
    }

    fn is_unknown(&self) -> (b: bool) {
        match self {
            TranslationParentBindType::Unknown(_) => true,
            _ => false,
        }
    }
}

/// When instances are generated.
///
/// Values not listed are kept as `Unknown` with their raw code.
#[derive(Clone, Copy, Debug, PartialEq, Eq, Structural)]
pub enum GenerationTiming {
    /// Code `0`.
    Continuous,
    /// Code `1`.
    Trigger,
    /// A code this library does not know.
    Unknown(i32),
}

impl IsUnknown for GenerationTiming {
    open spec fn spec_from_code(raw: i32) -> Self {
        if raw == 0 {
            GenerationTiming::Continuous
        } else if raw == 1 {
            GenerationTiming::Trigger
        } else {
            GenerationTiming::Unknown(raw)
        }
    }

    fn from_code(raw: i32) -> (r: Self) {
        if raw == 0 {
            GenerationTiming::Continuous
        } else if raw == 1 {
            GenerationTiming::Trigger
        } else {
            GenerationTiming::Unknown(raw)
        }
    }

    open spec fn spec_is_unknown(&self) -> bool {
        self is Unknown
    }

    fn is_unknown(&self) -> (b: bool) {
        match self {
            GenerationTiming::Unknown(_) => true,
            _ => false,
        }
    }
}

/// Kind of an effect node.
///
/// Values not listed are kept as `Unknown` with their raw code.
#[derive(Clone, Copy, Debug, PartialEq, Eq, Structural)]
pub enum EffectNodeType {
    /// Code `-1`.
    Root,
    /// Code `0`.
    NoneType,
    /// Code `2`.
    Sprite,
    /// Code `3`.
    Ribbon,
    /// Code `4`.
    Ring,
    /// Code `5`.
    Model,
    /// Code `6`.
    Track,
    /// A code this library does not know.
    Unknown(i32),
}

impl IsUnknown for EffectNodeType {
    open spec fn spec_from_code(raw: i32) -> Self {
        if raw == -1 {
            EffectNodeType::Root
        } else if raw == 0 {
            EffectNodeType::NoneType
        } else if raw == 2 {
            EffectNodeType::Sprite
        } else if raw == 3 {
            EffectNodeType::Ribbon
        } else if raw == 4 {
            EffectNodeType::Ring
        } else if raw == 5 {
            EffectNodeType::Model
        } else if raw == 6 {
            EffectNodeType::Track
        } else {
            EffectNodeType::Unknown(raw)
        }
    }

    fn from_code(raw: i32) -> (r: Self) {
        if raw == -1 {
            EffectNodeType::Root
        } else if raw == 0 {
            EffectNodeType::NoneType
        } else if raw == 2 {
            EffectNodeType::Sprite
        } else if raw == 3 {
            EffectNodeType::Ribbon
        } else if raw == 4 {
            EffectNodeType::Ring
        } else if raw == 5 {
            EffectNodeType::Model
        } else if raw == 6 {
            EffectNodeType::Track
        } else {
            EffectNodeType::Unknown(raw)
        }
    }

    open spec fn spec_is_unknown(&self) -> bool {
        self is Unknown
    }

    fn is_unknown(&self) -> (b: bool) {
        match self {
            EffectNodeType::Unknown(_) => true,
            _ => false,
        }
    }
}

/// What a node does when its LOD does not match.
///
/// Values not listed are kept as `Unknown` with their raw code.
#[derive(Clone, Copy, Debug, PartialEq, Eq, Structural)]
pub enum NonMatchingLODBehaviour {
    /// Code `0`.
    Hide,
    /// Code `1`.
    DontSpawn,
    /// Code `2`.
    DontSpawnAndHide,
    /// A code this library does not know.
    Unknown(i32),
}

impl IsUnknown for NonMatchingLODBehaviour {
    open spec fn spec_from_code(raw: i32) -> Self {
        if raw == 0 {
            NonMatchingLODBehaviour::Hide
        } else if raw == 1 {
            NonMatchingLODBehaviour::DontSpawn
        } else if raw == 2 {
            NonMatchingLODBehaviour::DontSpawnAndHide
        } else {
            NonMatchingLODBehaviour::Unknown(raw)
        }
    }

    fn from_code(raw: i32) -> (r: Self) {
        if raw == 0 {
            NonMatchingLODBehaviour::Hide
        } else if raw == 1 {
            NonMatchingLODBehaviour::DontSpawn
        } else if raw == 2 {
            NonMatchingLODBehaviour::DontSpawnAndHide
        } else {
            NonMatchingLODBehaviour::Unknown(raw)
        }
    }

    open spec fn spec_is_unknown(&self) -> bool {
        self is Unknown
    }

    fn is_unknown(&self) -> (b: bool) {
        match self {
            NonMatchingLODBehaviour::Unknown(_) => true,
            _ => false,
        }
    }
}

/// Shape used for effect culling.
///
/// Values not listed are kept as `Unknown` with their raw code.
#[derive(Clone, Copy, Debug, PartialEq, Eq, Structural)]
pub enum CullingShape {
    /// Code `0`.
    NoneShape,
    /// Code `1`.
    Sphere,
    /// A code this library does not know.
    Unknown(i32),
}

impl IsUnknown for CullingShape {
    open spec fn spec_from_code(raw: i32) -> Self {
        if raw == 0 {
            CullingShape::NoneShape
        } else if raw == 1 {
            CullingShape::Sphere
        } else {
            CullingShape::Unknown(raw)
        }
    }

    fn from_code(raw: i32) -> (r: Self) {
        if raw == 0 {
            CullingShape::NoneShape
        } else if raw == 1 {
            CullingShape::Sphere
        } else {
            CullingShape::Unknown(raw)
        }
    }

    open spec fn spec_is_unknown(&self) -> bool {
        self is Unknown
    }

    fn is_unknown(&self) -> (b: bool) {
        match self {
            CullingShape::Unknown(_) => true,
            _ => false,
        }
    }
}

/// Kind of translation parameter.
///
/// Values not listed are kept as `Unknown` with their raw code.
#[derive(Clone, Copy, Debug, PartialEq, Eq, Structural)]
pub enum ParameterTranslationType {
    /// Code `0`.
    Fixed,
    /// Code `1`.
    Pva,
    /// Code `2`.
    Easing,
    /// Code `3`.
    FCurve,
    /// Code `4`.
    NurbsCurve,
    /// Code `5`.
    ViewOffset,
    /// Code `2147483646`.
    NoTranslation,
    /// A code this library does not know.
    Unknown(i32),
}

impl IsUnknown for ParameterTranslationType {
    open spec fn spec_from_code(raw: i32) -> Self {
        if raw == 0 {
            ParameterTranslationType::Fixed
        } else if raw == 1 {
            ParameterTranslationType::Pva
        } else if raw == 2 {
            ParameterTranslationType::Easing
        } else if raw == 3 {
            ParameterTranslationType::FCurve
        } else if raw == 4 {
            ParameterTranslationType::NurbsCurve
        } else if raw == 5 {
            ParameterTranslationType::ViewOffset
        } else if raw == 2147483646 {
            ParameterTranslationType::NoTranslation
        } else {
            ParameterTranslationType::Unknown(raw)
        }
    }

    fn from_code(raw: i32) -> (r: Self) {
        if raw == 0 {
            ParameterTranslationType::Fixed
        } else if raw == 1 {
            ParameterTranslationType::Pva
        } else if raw == 2 {
            ParameterTranslationType::Easing
        } else if raw == 3 {
            ParameterTranslationType::FCurve
        } else if raw == 4 {
            ParameterTranslationType::NurbsCurve
        } else if raw == 5 {
            ParameterTranslationType::ViewOffset
        } else if raw == 2147483646 {
            ParameterTranslationType::NoTranslation
        } else {
            ParameterTranslationType::Unknown(raw)
        }
    }

    open spec fn spec_is_unknown(&self) -> bool {
        self is Unknown
    }

    fn is_unknown(&self) -> (b: bool) {
        match self {
            ParameterTranslationType::Unknown(_) => true,
            _ => false,
        }
    }
}

/// Kind of rotation parameter.
///
/// Values not listed are kept as `Unknown` with their raw code.
#[derive(Clone, Copy, Debug, PartialEq, Eq, Structural)]
pub enum ParameterRotationType {
    /// Code `0`.
    Fixed,
    /// Code `1`.
    Pva,
    /// Code `2`.
    Easing,
    /// Code `3`.
    AxisPva,
    /// Code `4`.
    AxisEasing,
    /// Code `5`.
    FCurve,
    /// Code `6`.
    RotateToViewpoint,
    /// Code `7`.
    Velocity,
    /// Code `2147483646`.
    NoRotation,
    /// A code this library does not know.
    Unknown(i32),
}

impl IsUnknown for ParameterRotationType {
    open spec fn spec_from_code(raw: i32) -> Self {
        if raw == 0 {
            ParameterRotationType::Fixed
        } else if raw == 1 {
            ParameterRotationType::Pva
        } else if raw == 2 {
            ParameterRotationType::Easing
        } else if raw == 3 {
            ParameterRotationType::AxisPva
        } else if raw == 4 {
            ParameterRotationType::AxisEasing
        } else if raw == 5 {
            ParameterRotationType::FCurve
        } else if raw == 6 {
            ParameterRotationType::RotateToViewpoint
        } else if raw == 7 {
            ParameterRotationType::Velocity
        } else if raw == 2147483646 {
            ParameterRotationType::NoRotation
        } else {
            ParameterRotationType::Unknown(raw)
        }
    }

    fn from_code(raw: i32) -> (r: Self) {
        if raw == 0 {
            ParameterRotationType::Fixed
        } else if raw == 1 {
            ParameterRotationType::Pva
        } else if raw == 2 {
            ParameterRotationType::Easing
        } else if raw == 3 {
            ParameterRotationType::AxisPva
        } else if raw == 4 {
            ParameterRotationType::AxisEasing
        } else if raw == 5 {
            ParameterRotationType::FCurve
        } else if raw == 6 {
            ParameterRotationType::RotateToViewpoint
        } else if raw == 7 {
            ParameterRotationType::Velocity
        } else if raw == 2147483646 {
            ParameterRotationType::NoRotation
        } else {
            ParameterRotationType::Unknown(raw)
        }
    }

    open spec fn spec_is_unknown(&self) -> bool {
        self is Unknown
    }

    fn is_unknown(&self) -> (b: bool) {
        match self {
            ParameterRotationType::Unknown(_) => true,
            _ => false,
        }
    }
}

/// Kind of scaling parameter.
///
/// Values not listed are kept as `Unknown` with their raw code.
#[derive(Clone, Copy, Debug, PartialEq, Eq, Structural)]
pub enum ParameterScalingType {
    /// Code `0`.
    Fixed,
    /// Code `1`.
    Pva,
    /// Code `2`.
    Easing,
    /// Code `3`.
    SinglePva,
    /// Code `4`.
    SingleEasing,
    /// Code `5`.
    FCurve,
    /// Code `6`.
    SingleFCurve,
    /// Code `2147483646`.
    NoScaling,
    /// A code this library does not know.
    Unknown(i32),
}

impl IsUnknown for ParameterScalingType {
    open spec fn spec_from_code(raw: i32) -> Self {
        if raw == 0 {
            ParameterScalingType::Fixed
        } else if raw == 1 {
            ParameterScalingType::Pva
        } else if raw == 2 {
            ParameterScalingType::Easing
        } else if raw == 3 {
            ParameterScalingType::SinglePva
        } else if raw == 4 {
            ParameterScalingType::SingleEasing
        } else if raw == 5 {
            ParameterScalingType::FCurve
        } else if raw == 6 {
            ParameterScalingType::SingleFCurve
        } else if raw == 2147483646 {
            ParameterScalingType::NoScaling
        } else {
            ParameterScalingType::Unknown(raw)
        }
    }

    fn from_code(raw: i32) -> (r: Self) {
        if raw == 0 {
            ParameterScalingType::Fixed
        } else if raw == 1 {
            ParameterScalingType::Pva
        } else if raw == 2 {
            ParameterScalingType::Easing
        } else if raw == 3 {
            ParameterScalingType::SinglePva
        } else if raw == 4 {
            ParameterScalingType::SingleEasing
        } else if raw == 5 {
            ParameterScalingType::FCurve
        } else if raw == 6 {
            ParameterScalingType::SingleFCurve
        } else if raw == 2147483646 {
            ParameterScalingType::NoScaling
        } else {
            ParameterScalingType::Unknown(raw)
        }
    }

    open spec fn spec_is_unknown(&self) -> bool {
        self is Unknown
    }

    fn is_unknown(&self) -> (b: bool) {
        match self {
            ParameterScalingType::Unknown(_) => true,
            _ => false,
        }
    }
}

/// Loop behaviour along a NURBS curve.
///
/// Values not listed are kept as `Unknown` with their raw code.
#[derive(Clone, Copy, Debug, PartialEq, Eq, Structural)]
pub enum NurbsCurveLoopType {
    /// Code `0`.
    Repeat,
    /// Code `1`.
    Stop,
    /// A code this library does not know.
    Unknown(i32),
}

impl IsUnknown for NurbsCurveLoopType {
    open spec fn spec_from_code(raw: i32) -> Self {
        if raw == 0 {
            NurbsCurveLoopType::Repeat
        } else if raw == 1 {
            NurbsCurveLoopType::Stop
        } else {
            NurbsCurveLoopType::Unknown(raw)
        }
    }

    fn from_code(raw: i32) -> (r: Self) {
        if raw == 0 {
            NurbsCurveLoopType::Repeat
        } else if raw == 1 {
            NurbsCurveLoopType::Stop
        } else {
            NurbsCurveLoopType::Unknown(raw)
        }
    }

    open spec fn spec_is_unknown(&self) -> bool {
        self is Unknown
    }

    fn is_unknown(&self) -> (b: bool) {
        match self {
            NurbsCurveLoopType::Unknown(_) => true,
            _ => false,
        }
    }
}

/// Axis for velocity-directed rotation.
///
/// Values not listed are kept as `Unknown` with their raw code.
#[derive(Clone, Copy, Debug, PartialEq, Eq, Structural)]
pub enum DirectionalAxisType {
    /// Code `0`.
    X,
    /// Code `1`.
    Y,
    /// Code `2`.
    Z,
    /// A code this library does not know.
    Unknown(i32),
}

impl IsUnknown for DirectionalAxisType {
    open spec fn spec_from_code(raw: i32) -> Self {
        if raw == 0 {
            DirectionalAxisType::X
        } else if raw == 1 {
            DirectionalAxisType::Y
        } else if raw == 2 {
            DirectionalAxisType::Z
        } else {
            DirectionalAxisType::Unknown(raw)
        }
    }

    fn from_code(raw: i32) -> (r: Self) {
        if raw == 0 {
            DirectionalAxisType::X
        } else if raw == 1 {
            DirectionalAxisType::Y
        } else if raw == 2 {
            DirectionalAxisType::Z
        } else {
            DirectionalAxisType::Unknown(raw)
        }
    }

    open spec fn spec_is_unknown(&self) -> bool {
        self is Unknown
    }

    fn is_unknown(&self) -> (b: bool) {
        match self {
            DirectionalAxisType::Unknown(_) => true,
            _ => false,
        }
    }
}

/// Easing curve kind.
///
/// Values not listed are kept as `Unknown` with their raw code.
#[derive(Clone, Copy, Debug, PartialEq, Eq, Structural)]
pub enum Easing3Type {
    /// Code `0`.
    StartEndSpeed,
    /// Code `1`.
    Linear,
    /// Code `2`.
    EaseInQuadratic,
    /// Code `3`.
    EaseOutQuadratic,
    /// Code `4`.
    EaseInOutQuadratic,
    /// Code `5`.
    EaseInCubic,
    /// Code `6`.
    EaseOutCubic,
    /// Code `7`.
    EaseInOutCubic,
    /// Code `8`.
    EaseInQuartic,
    /// Code `9`.
    EaseOutQuartic,
    /// Code `10`.
    EaseInOutQuartic,
    /// Code `11`.
    EaseInQuintic,
    /// Code `12`.
    EaseOutQuintic,
    /// Code `13`.
    EaseInOutQuintic,
    /// Code `14`.
    EaseInBack,
    /// Code `15`.
    EaseOutBack,
    /// Code `16`.
    EaseInOutBack,
    /// Code `17`.
    EaseInBounce,
    /// Code `18`.
    EaseOutBounce,
    /// Code `19`.
    EaseInOutBounce,
    /// A code this library does not know.
    Unknown(i32),
}

impl IsUnknown for Easing3Type {
    open spec fn spec_from_code(raw: i32) -> Self {
        if raw == 0 {
            Easing3Type::StartEndSpeed
        } else if raw == 1 {
            Easing3Type::Linear
        } else if raw == 2 {
            Easing3Type::EaseInQuadratic
        } else if raw == 3 {
            Easing3Type::EaseOutQuadratic
        } else if raw == 4 {
            Easing3Type::EaseInOutQuadratic
        } else if raw == 5 {
            Easing3Type::EaseInCubic
        } else if raw == 6 {
            Easing3Type::EaseOutCubic
        } else if raw == 7 {
            Easing3Type::EaseInOutCubic
        } else if raw == 8 {
            Easing3Type::EaseInQuartic
        } else if raw == 9 {
            Easing3Type::EaseOutQuartic
        } else if raw == 10 {
            Easing3Type::EaseInOutQuartic
        } else if raw == 11 {
            Easing3Type::EaseInQuintic
        } else if raw == 12 {
            Easing3Type::EaseOutQuintic
        } else if raw == 13 {
            Easing3Type::EaseInOutQuintic
        } else if raw == 14 {
            Easing3Type::EaseInBack
        } else if raw == 15 {
            Easing3Type::EaseOutBack
        } else if raw == 16 {
            Easing3Type::EaseInOutBack
        } else if raw == 17 {
            Easing3Type::EaseInBounce
        } else if raw == 18 {
            Easing3Type::EaseOutBounce
        } else if raw == 19 {
            Easing3Type::EaseInOutBounce
        } else {
            Easing3Type::Unknown(raw)
        }
    }

    fn from_code(raw: i32) -> (r: Self) {
        if raw == 0 {
            Easing3Type::StartEndSpeed
        } else if raw == 1 {
            Easing3Type::Linear
        } else if raw == 2 {
            Easing3Type::EaseInQuadratic
        } else if raw == 3 {
            Easing3Type::EaseOutQuadratic
        } else if raw == 4 {
            Easing3Type::EaseInOutQuadratic
        } else if raw == 5 {
            Easing3Type::EaseInCubic
        } else if raw == 6 {
            Easing3Type::EaseOutCubic
        } else if raw == 7 {
            Easing3Type::EaseInOutCubic
        } else if raw == 8 {
            Easing3Type::EaseInQuartic
        } else if raw == 9 {
            Easing3Type::EaseOutQuartic
        } else if raw == 10 {
            Easing3Type::EaseInOutQuartic
        } else if raw == 11 {
            Easing3Type::EaseInQuintic
        } else if raw == 12 {
            Easing3Type::EaseOutQuintic
        } else if raw == 13 {
            Easing3Type::EaseInOutQuintic
        } else if raw == 14 {
            Easing3Type::EaseInBack
        } else if raw == 15 {
            Easing3Type::EaseOutBack
        } else if raw == 16 {
            Easing3Type::EaseInOutBack
        } else if raw == 17 {
            Easing3Type::EaseInBounce
        } else if raw == 18 {
            Easing3Type::EaseOutBounce
        } else if raw == 19 {
            Easing3Type::EaseInOutBounce
        } else {
            Easing3Type::Unknown(raw)
        }
    }

    open spec fn spec_is_unknown(&self) -> bool {
        self is Unknown
    }

    fn is_unknown(&self) -> (b: bool) {
        match self {
            Easing3Type::Unknown(_) => true,
            _ => false,
        }
    }
}

/// Behaviour of an F-curve outside its sampled range.
///
/// Values not listed are kept as `Unknown` with their raw code.
#[derive(Clone, Copy, Debug, PartialEq, Eq, Structural)]
pub enum FCurveEdge {
    /// Code `0`.
    Constant,
    /// Code `1`.
    Loop,
    /// Code `2`.
    LoopInversely,
    /// A code this library does not know.
    Unknown(i32),
}

impl IsUnknown for FCurveEdge {
    open spec fn spec_from_code(raw: i32) -> Self {
        if raw == 0 {
            FCurveEdge::Constant
        } else if raw == 1 {
            FCurveEdge::Loop
        } else if raw == 2 {
            FCurveEdge::LoopInversely
        } else {
            FCurveEdge::Unknown(raw)
        }
    }

    fn from_code(raw: i32) -> (r: Self) {
        if raw == 0 {
            FCurveEdge::Constant
        } else if raw == 1 {
            FCurveEdge::Loop
        } else if raw == 2 {
            FCurveEdge::LoopInversely
        } else {
            FCurveEdge::Unknown(raw)
        }
    }

    open spec fn spec_is_unknown(&self) -> bool {
        self is Unknown
    }

    fn is_unknown(&self) -> (b: bool) {
        match self {
            FCurveEdge::Unknown(_) => true,
            _ => false,
        }
    }
}

/// Shape of the spawn location.
///
/// Values not listed are kept as `Unknown` with their raw code.
#[derive(Clone, Copy, Debug, PartialEq, Eq, Structural)]
pub enum GenerationLocationType {
    /// Code `0`.
    Point,
    /// Code `1`.
    Sphere,
    /// Code `2`.
    Model,
    /// Code `3`.
    Circle,
    /// Code `4`.
    Line,
    /// A code this library does not know.
    Unknown(i32),
}

impl IsUnknown for GenerationLocationType {
    open spec fn spec_from_code(raw: i32) -> Self {
        if raw == 0 {
            GenerationLocationType::Point
        } else if raw == 1 {
            GenerationLocationType::Sphere
        } else if raw == 2 {
            GenerationLocationType::Model
        } else if raw == 3 {
            GenerationLocationType::Circle
        } else if raw == 4 {
            GenerationLocationType::Line
        } else {
            GenerationLocationType::Unknown(raw)
        }
    }

    fn from_code(raw: i32) -> (r: Self) {
        if raw == 0 {
            GenerationLocationType::Point
        } else if raw == 1 {
            GenerationLocationType::Sphere
        } else if raw == 2 {
            GenerationLocationType::Model
        } else if raw == 3 {
            GenerationLocationType::Circle
        } else if raw == 4 {
            GenerationLocationType::Line
        } else {
            GenerationLocationType::Unknown(raw)
        }
    }

    open spec fn spec_is_unknown(&self) -> bool {
        self is Unknown
    }

    fn is_unknown(&self) -> (b: bool) {
        match self {
            GenerationLocationType::Unknown(_) => true,
            _ => false,
        }
    }
}

/// Where a model comes from.
///
/// Values not listed are kept as `Unknown` with their raw code.
#[derive(Clone, Copy, Debug, PartialEq, Eq, Structural)]
pub enum ModelReferenceType {
    /// Code `0`.
    File,
    /// Code `1`.
    Procedural,
    /// Code `2`.
    External,
    /// A code this library does not know.
    Unknown(i32),
}

impl IsUnknown for ModelReferenceType {
    open spec fn spec_from_code(raw: i32) -> Self {
        if raw == 0 {
            ModelReferenceType::File
        } else if raw == 1 {
            ModelReferenceType::Procedural
        } else if raw == 2 {
            ModelReferenceType::External
        } else {
            ModelReferenceType::Unknown(raw)
        }
    }

    fn from_code(raw: i32) -> (r: Self) {
        if raw == 0 {
            ModelReferenceType::File
        } else if raw == 1 {
            ModelReferenceType::Procedural
        } else if raw == 2 {
            ModelReferenceType::External
        } else {
            ModelReferenceType::Unknown(raw)
        }
    }

    open spec fn spec_is_unknown(&self) -> bool {
        self is Unknown
    }

    fn is_unknown(&self) -> (b: bool) {
        match self {
            ModelReferenceType::Unknown(_) => true,
            _ => false,
        }
    }
}

/// How a spawn point is chosen on a model.
///
/// Values not listed are kept as `Unknown` with their raw code.
#[derive(Clone, Copy, Debug, PartialEq, Eq, Structural)]
pub enum ModelSpawnType {
    /// Code `0`.
    Random,
    /// Code `1`.
    Vertex,
    /// Code `2`.
    VertexRandom,
    /// Code `3`.
    Face,
    /// Code `4`.
    FaceRandom,
    /// A code this library does not know.
    Unknown(i32),
}

impl IsUnknown for ModelSpawnType {
    open spec fn spec_from_code(raw: i32) -> Self {
        if raw == 0 {
            ModelSpawnType::Random
        } else if raw == 1 {
            ModelSpawnType::Vertex
        } else if raw == 2 {
            ModelSpawnType::VertexRandom
        } else if raw == 3 {
            ModelSpawnType::Face
        } else if raw == 4 {
            ModelSpawnType::FaceRandom
        } else {
            ModelSpawnType::Unknown(raw)
        }
    }

    fn from_code(raw: i32) -> (r: Self) {
        if raw == 0 {
            ModelSpawnType::Random
        } else if raw == 1 {
            ModelSpawnType::Vertex
        } else if raw == 2 {
            ModelSpawnType::VertexRandom
        } else if raw == 3 {
            ModelSpawnType::Face
        } else if raw == 4 {
            ModelSpawnType::FaceRandom
        } else {
            ModelSpawnType::Unknown(raw)
        }
    }

    open spec fn spec_is_unknown(&self) -> bool {
        self is Unknown
    }

    fn is_unknown(&self) -> (b: bool) {
        match self {
            ModelSpawnType::Unknown(_) => true,
            _ => false,
        }
    }
}

/// Coordinate space of model spawn points.
///
/// Values not listed are kept as `Unknown` with their raw code.
#[derive(Clone, Copy, Debug, PartialEq, Eq, Structural)]
pub enum ModelCoordinateSpace {
    /// Code `0`.
    Local,
    /// Code `1`.
    World,
    /// A code this library does not know.
    Unknown(i32),
}

impl IsUnknown for ModelCoordinateSpace {
    open spec fn spec_from_code(raw: i32) -> Self {
        if raw == 0 {
            ModelCoordinateSpace::Local
        } else if raw == 1 {
            ModelCoordinateSpace::World
        } else {
            ModelCoordinateSpace::Unknown(raw)
        }
    }

    fn from_code(raw: i32) -> (r: Self) {
        if raw == 0 {
            ModelCoordinateSpace::Local
        } else if raw == 1 {
            ModelCoordinateSpace::World
        } else {
            ModelCoordinateSpace::Unknown(raw)
        }
    }

    open spec fn spec_is_unknown(&self) -> bool {
        self is Unknown
    }

    fn is_unknown(&self) -> (b: bool) {
        match self {
            ModelCoordinateSpace::Unknown(_) => true,
            _ => false,
        }
    }
}

/// Distribution of spawn points on a circle.
///
/// Values not listed are kept as `Unknown` with their raw code.
#[derive(Clone, Copy, Debug, PartialEq, Eq, Structural)]
pub enum CircleDistributionType {
    /// Code `0`.
    Random,
    /// Code `1`.
    Order,
    /// Code `2`.
    ReverseOrder,
    /// A code this library does not know.
    Unknown(i32),
}

impl IsUnknown for CircleDistributionType {
    open spec fn spec_from_code(raw: i32) -> Self {
        if raw == 0 {
            CircleDistributionType::Random
        } else if raw == 1 {
            CircleDistributionType::Order
        } else if raw == 2 {
            CircleDistributionType::ReverseOrder
        } else {
            CircleDistributionType::Unknown(raw)
        }
    }

    fn from_code(raw: i32) -> (r: Self) {
        if raw == 0 {
            CircleDistributionType::Random
        } else if raw == 1 {
            CircleDistributionType::Order
        } else if raw == 2 {
            CircleDistributionType::ReverseOrder
        } else {
            CircleDistributionType::Unknown(raw)
        }
    }

    open spec fn spec_is_unknown(&self) -> bool {
        self is Unknown
    }

    fn is_unknown(&self) -> (b: bool) {
        match self {
            CircleDistributionType::Unknown(_) => true,
            _ => false,
        }
    }
}

/// Axis of a spawn circle.
///
/// Values not listed are kept as `Unknown` with their raw code.
#[derive(Clone, Copy, Debug, PartialEq, Eq, Structural)]
pub enum SpawnAxisType {
    /// Code `0`.
    X,
    /// Code `1`.
    Y,
    /// Code `2`.
    Z,
    /// A code this library does not know.
    Unknown(i32),
}

impl IsUnknown for SpawnAxisType {
    open spec fn spec_from_code(raw: i32) -> Self {
        if raw == 0 {
            SpawnAxisType::X
        } else if raw == 1 {
            SpawnAxisType::Y
        } else if raw == 2 {
            SpawnAxisType::Z
        } else {
            SpawnAxisType::Unknown(raw)
        }
    }

    fn from_code(raw: i32) -> (r: Self) {
        if raw == 0 {
            SpawnAxisType::X
        } else if raw == 1 {
            SpawnAxisType::Y
        } else if raw == 2 {
            SpawnAxisType::Z
        } else {
            SpawnAxisType::Unknown(raw)
        }
    }

    open spec fn spec_is_unknown(&self) -> bool {
        self is Unknown
    }

    fn is_unknown(&self) -> (b: bool) {
        match self {
            SpawnAxisType::Unknown(_) => true,
            _ => false,
        }
    }
}

/// Distribution of spawn points on a line.
///
/// Values not listed are kept as `Unknown` with their raw code.
#[derive(Clone, Copy, Debug, PartialEq, Eq, Structural)]
pub enum LineDistributionType {
    /// Code `0`.
    Random,
    /// Code `1`.
    Order,
    /// A code this library does not know.
    Unknown(i32),
}

impl IsUnknown for LineDistributionType {
    open spec fn spec_from_code(raw: i32) -> Self {
        if raw == 0 {
            LineDistributionType::Random
        } else if raw == 1 {
            LineDistributionType::Order
        } else {
            LineDistributionType::Unknown(raw)
        }
    }

    fn from_code(raw: i32) -> (r: Self) {
        if raw == 0 {
            LineDistributionType::Random
        } else if raw == 1 {
            LineDistributionType::Order
        } else {
            LineDistributionType::Unknown(raw)
        }
    }

    open spec fn spec_is_unknown(&self) -> bool {
        self is Unknown
    }

    fn is_unknown(&self) -> (b: bool) {
        match self {
            LineDistributionType::Unknown(_) => true,
            _ => false,
        }
    }
}

/// Depth sorting mode.
///
/// Values not listed are kept as `Unknown` with their raw code.
#[derive(Clone, Copy, Debug, PartialEq, Eq, Structural)]
pub enum ZSortType {
    /// Code `0`.
    NoSort,
    /// Code `1`.
    NormalOrder,
    /// Code `2`.
    ReverseOrder,
    /// A code this library does not know.
    Unknown(i32),
}

impl IsUnknown for ZSortType {
    open spec fn spec_from_code(raw: i32) -> Self {
        if raw == 0 {
            ZSortType::NoSort
        } else if raw == 1 {
            ZSortType::NormalOrder
        } else if raw == 2 {
            ZSortType::ReverseOrder
        } else {
            ZSortType::Unknown(raw)
        }
    }

    fn from_code(raw: i32) -> (r: Self) {
        if raw == 0 {
            ZSortType::NoSort
        } else if raw == 1 {
            ZSortType::NormalOrder
        } else if raw == 2 {
            ZSortType::ReverseOrder
        } else {
            ZSortType::Unknown(raw)
        }
    }

    open spec fn spec_is_unknown(&self) -> bool {
        self is Unknown
    }

    fn is_unknown(&self) -> (b: bool) {
        match self {
            ZSortType::Unknown(_) => true,
            _ => false,
        }
    }
}

/// Kind of kill volume.
///
/// Values not listed are kept as `Unknown` with their raw code.
#[derive(Clone, Copy, Debug, PartialEq, Eq, Structural)]
pub enum KillType {
    /// Code `0`.
    NoKill,
    /// Code `1`.
    Box,
    /// Code `2`.
    Plane,
    /// Code `3`.
    Sphere,
    /// A code this library does not know.
    Unknown(i32),
}

impl IsUnknown for KillType {
    open spec fn spec_from_code(raw: i32) -> Self {
        if raw == 0 {
            KillType::NoKill
        } else if raw == 1 {
            KillType::Box
        } else if raw == 2 {
            KillType::Plane
        } else if raw == 3 {
            KillType::Sphere
        } else {
            KillType::Unknown(raw)
        }
    }

    fn from_code(raw: i32) -> (r: Self) {
        if raw == 0 {
            KillType::NoKill
        } else if raw == 1 {
            KillType::Box
        } else if raw == 2 {
            KillType::Plane
        } else if raw == 3 {
            KillType::Sphere
        } else {
            KillType::Unknown(raw)
        }
    }

    open spec fn spec_is_unknown(&self) -> bool {
        self is Unknown
    }

    fn is_unknown(&self) -> (b: bool) {
        match self {
            KillType::Unknown(_) => true,
            _ => false,
        }
    }
}

/// Coordinate system of collisions.
///
/// Values not listed are kept as `Unknown` with their raw code.
#[derive(Clone, Copy, Debug, PartialEq, Eq, Structural)]
pub enum WorldCoordinateSystemType {
    /// Code `0`.
    Local,
    /// Code `1`.
    World,
    /// A code this library does not know.
    Unknown(i32),
}

impl IsUnknown for WorldCoordinateSystemType {
    open spec fn spec_from_code(raw: i32) -> Self {
        if raw == 0 {
            WorldCoordinateSystemType::Local
        } else if raw == 1 {
            WorldCoordinateSystemType::World
        } else {
            WorldCoordinateSystemType::Unknown(raw)
        }
    }

    fn from_code(raw: i32) -> (r: Self) {
        if raw == 0 {
            WorldCoordinateSystemType::Local
        } else if raw == 1 {
            WorldCoordinateSystemType::World
        } else {
            WorldCoordinateSystemType::Unknown(raw)
        }
    }

    open spec fn spec_is_unknown(&self) -> bool {
        self is Unknown
    }

    fn is_unknown(&self) -> (b: bool) {
        match self {
            WorldCoordinateSystemType::Unknown(_) => true,
            _ => false,
        }
    }
}

/// Kind of alpha cutoff.
///
/// Values not listed are kept as `Unknown` with their raw code.
#[derive(Clone, Copy, Debug, PartialEq, Eq, Structural)]
pub enum AlphaCutoffType {
    /// Code `0`.
    Fixed,
    /// Code `1`.
    FourPointInterpolation,
    /// Code `2`.
    Easing,
    /// Code `3`.
    FCurve,
    /// A code this library does not know.
    Unknown(i32),
}

impl IsUnknown for AlphaCutoffType {
    open spec fn spec_from_code(raw: i32) -> Self {
        if raw == 0 {
            AlphaCutoffType::Fixed
        } else if raw == 1 {
            AlphaCutoffType::FourPointInterpolation
        } else if raw == 2 {
            AlphaCutoffType::Easing
        } else if raw == 3 {
            AlphaCutoffType::FCurve
        } else {
            AlphaCutoffType::Unknown(raw)
        }
    }

    fn from_code(raw: i32) -> (r: Self) {
        if raw == 0 {
            AlphaCutoffType::Fixed
        } else if raw == 1 {
            AlphaCutoffType::FourPointInterpolation
        } else if raw == 2 {
            AlphaCutoffType::Easing
        } else if raw == 3 {
            AlphaCutoffType::FCurve
        } else {
            AlphaCutoffType::Unknown(raw)
        }
    }

    open spec fn spec_is_unknown(&self) -> bool {
        self is Unknown
    }

    fn is_unknown(&self) -> (b: bool) {
        match self {
            AlphaCutoffType::Unknown(_) => true,
            _ => false,
        }
    }
}

/// Kind of local force field.
///
/// Values not listed are kept as `Unknown` with their raw code.
#[derive(Clone, Copy, Debug, PartialEq, Eq, Structural)]
pub enum LocalForceFieldType {
    /// Code `0`.
    NoField,
    /// Code `1`.
    Turbulence,
    /// Code `2`.
    Force,
    /// Code `3`.
    Wind,
    /// Code `4`.
    Vortex,
    /// Code `7`.
    Drag,
    /// Code `8`.
    Gravity,
    /// Code `9`.
    AttractiveForce,
    /// A code this library does not know.
    Unknown(i32),
}

impl IsUnknown for LocalForceFieldType {
    open spec fn spec_from_code(raw: i32) -> Self {
        if raw == 0 {
            LocalForceFieldType::NoField
        } else if raw == 1 {
            LocalForceFieldType::Turbulence
        } else if raw == 2 {
            LocalForceFieldType::Force
        } else if raw == 3 {
            LocalForceFieldType::Wind
        } else if raw == 4 {
            LocalForceFieldType::Vortex
        } else if raw == 7 {
            LocalForceFieldType::Drag
        } else if raw == 8 {
            LocalForceFieldType::Gravity
        } else if raw == 9 {
            LocalForceFieldType::AttractiveForce
        } else {
            LocalForceFieldType::Unknown(raw)
        }
    }

    fn from_code(raw: i32) -> (r: Self) {
        if raw == 0 {
            LocalForceFieldType::NoField
        } else if raw == 1 {
            LocalForceFieldType::Turbulence
        } else if raw == 2 {
            LocalForceFieldType::Force
        } else if raw == 3 {
            LocalForceFieldType::Wind
        } else if raw == 4 {
            LocalForceFieldType::Vortex
        } else if raw == 7 {
            LocalForceFieldType::Drag
        } else if raw == 8 {
            LocalForceFieldType::Gravity
        } else if raw == 9 {
            LocalForceFieldType::AttractiveForce
        } else {
            LocalForceFieldType::Unknown(raw)
        }
    }

    open spec fn spec_is_unknown(&self) -> bool {
        self is Unknown
    }

    fn is_unknown(&self) -> (b: bool) {
        match self {
            LocalForceFieldType::Unknown(_) => true,
            _ => false,
        }
    }
}

/// Kind of vortex.
///
/// Values not listed are kept as `Unknown` with their raw code.
#[derive(Clone, Copy, Debug, PartialEq, Eq, Structural)]
pub enum ForceFieldVortexType {
    /// Code `0`.
    ConstantAngle,
    /// Code `1`.
    ConstantSpeed,
    /// A code this library does not know.
    Unknown(i32),
}

impl IsUnknown for ForceFieldVortexType {
    open spec fn spec_from_code(raw: i32) -> Self {
        if raw == 0 {
            ForceFieldVortexType::ConstantAngle
        } else if raw == 1 {
            ForceFieldVortexType::ConstantSpeed
        } else {
            ForceFieldVortexType::Unknown(raw)
        }
    }

    fn from_code(raw: i32) -> (r: Self) {
        if raw == 0 {
            ForceFieldVortexType::ConstantAngle
        } else if raw == 1 {
            ForceFieldVortexType::ConstantSpeed
        } else {
            ForceFieldVortexType::Unknown(raw)
        }
    }

    open spec fn spec_is_unknown(&self) -> bool {
        self is Unknown
    }

    fn is_unknown(&self) -> (b: bool) {
        match self {
            ForceFieldVortexType::Unknown(_) => true,
            _ => false,
        }
    }
}

/// Kind of turbulence.
///
/// Values not listed are kept as `Unknown` with their raw code.
#[derive(Clone, Copy, Debug, PartialEq, Eq, Structural)]
pub enum ForceFieldTurbulenceType {
    /// Code `0`.
    Simple,
    /// Code `1`.
    Complicated,
    /// A code this library does not know.
    Unknown(i32),
}

impl IsUnknown for ForceFieldTurbulenceType {
    open spec fn spec_from_code(raw: i32) -> Self {
        if raw == 0 {
            ForceFieldTurbulenceType::Simple
        } else if raw == 1 {
            ForceFieldTurbulenceType::Complicated
        } else {
            ForceFieldTurbulenceType::Unknown(raw)
        }
    }

    fn from_code(raw: i32) -> (r: Self) {
        if raw == 0 {
            ForceFieldTurbulenceType::Simple
        } else if raw == 1 {
            ForceFieldTurbulenceType::Complicated
        } else {
            ForceFieldTurbulenceType::Unknown(raw)
        }
    }

    open spec fn spec_is_unknown(&self) -> bool {
        self is Unknown
    }

    fn is_unknown(&self) -> (b: bool) {
        match self {
            ForceFieldTurbulenceType::Unknown(_) => true,
            _ => false,
        }
    }
}

/// Falloff shape of a force field.
///
/// Values not listed are kept as `Unknown` with their raw code.
#[derive(Clone, Copy, Debug, PartialEq, Eq, Structural)]
pub enum LocalForceFieldFalloffType {
    /// Code `0`.
    NoFalloff,
    /// Code `1`.
    Sphere,
    /// Code `2`.
    Tube,
    /// Code `3`.
    Cone,
    /// A code this library does not know.
    Unknown(i32),
}

impl IsUnknown for LocalForceFieldFalloffType {
    open spec fn spec_from_code(raw: i32) -> Self {
        if raw == 0 {
            LocalForceFieldFalloffType::NoFalloff
        } else if raw == 1 {
            LocalForceFieldFalloffType::Sphere
        } else if raw == 2 {
            LocalForceFieldFalloffType::Tube
        } else if raw == 3 {
            LocalForceFieldFalloffType::Cone
        } else {
            LocalForceFieldFalloffType::Unknown(raw)
        }
    }

    fn from_code(raw: i32) -> (r: Self) {
        if raw == 0 {
            LocalForceFieldFalloffType::NoFalloff
        } else if raw == 1 {
            LocalForceFieldFalloffType::Sphere
        } else if raw == 2 {
            LocalForceFieldFalloffType::Tube
        } else if raw == 3 {
            LocalForceFieldFalloffType::Cone
        } else {
            LocalForceFieldFalloffType::Unknown(raw)
        }
    }

    open spec fn spec_is_unknown(&self) -> bool {
        self is Unknown
    }

    fn is_unknown(&self) -> (b: bool) {
        match self {
            LocalForceFieldFalloffType::Unknown(_) => true,
            _ => false,
        }
    }
}

/// Material used by a renderer.
///
/// Values not listed are kept as `Unknown` with their raw code.
#[derive(Clone, Copy, Debug, PartialEq, Eq, Structural)]
pub enum RendererMaterialType {
    /// Code `0`.
    Default,
    /// Code `6`.
    BackDistortion,
    /// Code `7`.
    Lighting,
    /// Code `128`.
    File,
    /// A code this library does not know.
    Unknown(i32),
}

impl IsUnknown for RendererMaterialType {
    open spec fn spec_from_code(raw: i32) -> Self {
        if raw == 0 {
            RendererMaterialType::Default
        } else if raw == 6 {
            RendererMaterialType::BackDistortion
        } else if raw == 7 {
            RendererMaterialType::Lighting
        } else if raw == 128 {
            RendererMaterialType::File
        } else {
            RendererMaterialType::Unknown(raw)
        }
    }

    fn from_code(raw: i32) -> (r: Self) {
        if raw == 0 {
            RendererMaterialType::Default
        } else if raw == 6 {
            RendererMaterialType::BackDistortion
        } else if raw == 7 {
            RendererMaterialType::Lighting
        } else if raw == 128 {
            RendererMaterialType::File
        } else {
            RendererMaterialType::Unknown(raw)
        }
    }

    open spec fn spec_is_unknown(&self) -> bool {
        self is Unknown
    }

    fn is_unknown(&self) -> (b: bool) {
        match self {
            RendererMaterialType::Unknown(_) => true,
            _ => false,
        }
    }
}

/// Alpha blending mode.
///
/// Values not listed are kept as `Unknown` with their raw code.
#[derive(Clone, Copy, Debug, PartialEq, Eq, Structural)]
pub enum AlphaBlendType {
    /// Code `0`.
    Opacity,
    /// Code `1`.
    Blend,
    /// Code `2`.
    Add,
    /// Code `3`.
    Sub,
    /// Code `4`.
    Mul,
    /// A code this library does not know.
    Unknown(i32),
}

impl IsUnknown for AlphaBlendType {
    open spec fn spec_from_code(raw: i32) -> Self {
        if raw == 0 {
            AlphaBlendType::Opacity
        } else if raw == 1 {
            AlphaBlendType::Blend
        } else if raw == 2 {
            AlphaBlendType::Add
        } else if raw == 3 {
            AlphaBlendType::Sub
        } else if raw == 4 {
            AlphaBlendType::Mul
        } else {
            AlphaBlendType::Unknown(raw)
        }
    }

    fn from_code(raw: i32) -> (r: Self) {
        if raw == 0 {
            AlphaBlendType::Opacity
        } else if raw == 1 {
            AlphaBlendType::Blend
        } else if raw == 2 {
            AlphaBlendType::Add
        } else if raw == 3 {
            AlphaBlendType::Sub
        } else if raw == 4 {
            AlphaBlendType::Mul
        } else {
            AlphaBlendType::Unknown(raw)
        }
    }

    open spec fn spec_is_unknown(&self) -> bool {
        self is Unknown
    }

    fn is_unknown(&self) -> (b: bool) {
        match self {
            AlphaBlendType::Unknown(_) => true,
            _ => false,
        }
    }
}

/// Texture filtering mode.
///
/// Values not listed are kept as `Unknown` with their raw code.
#[derive(Clone, Copy, Debug, PartialEq, Eq, Structural)]
pub enum TextureFilterType {
    /// Code `0`.
    Nearest,
    /// Code `1`.
    Linear,
    /// A code this library does not know.
    Unknown(i32),
}

impl IsUnknown for TextureFilterType {
    open spec fn spec_from_code(raw: i32) -> Self {
        if raw == 0 {
            TextureFilterType::Nearest
        } else if raw == 1 {
            TextureFilterType::Linear
        } else {
            TextureFilterType::Unknown(raw)
        }
    }

    fn from_code(raw: i32) -> (r: Self) {
        if raw == 0 {
            TextureFilterType::Nearest
        } else if raw == 1 {
            TextureFilterType::Linear
        } else {
            TextureFilterType::Unknown(raw)
        }
    }

    open spec fn spec_is_unknown(&self) -> bool {
        self is Unknown
    }

    fn is_unknown(&self) -> (b: bool) {
        match self {
            TextureFilterType::Unknown(_) => true,
            _ => false,
        }
    }
}

/// Texture wrapping mode.
///
/// Values not listed are kept as `Unknown` with their raw code.
#[derive(Clone, Copy, Debug, PartialEq, Eq, Structural)]
pub enum TextureWrapType {
    /// Code `0`.
    Repeat,
    /// Code `1`.
    Clamp,
    /// A code this library does not know.
    Unknown(i32),
}

impl IsUnknown for TextureWrapType {
    open spec fn spec_from_code(raw: i32) -> Self {
        if raw == 0 {
            TextureWrapType::Repeat
        } else if raw == 1 {
            TextureWrapType::Clamp
        } else {
            TextureWrapType::Unknown(raw)
        }
    }

    fn from_code(raw: i32) -> (r: Self) {
        if raw == 0 {
            TextureWrapType::Repeat
        } else if raw == 1 {
            TextureWrapType::Clamp
        } else {
            TextureWrapType::Unknown(raw)
        }
    }

    open spec fn spec_is_unknown(&self) -> bool {
        self is Unknown
    }

    fn is_unknown(&self) -> (b: bool) {
        match self {
            TextureWrapType::Unknown(_) => true,
            _ => false,
        }
    }
}

/// Fade-in mode.
///
/// Values not listed are kept as `Unknown` with their raw code.
#[derive(Clone, Copy, Debug, PartialEq, Eq, Structural)]
pub enum FadeInType {
    /// Code `0`.
    NoFade,
    /// Code `1`.
    Use,
    /// A code this library does not know.
    Unknown(i32),
}

impl IsUnknown for FadeInType {
    open spec fn spec_from_code(raw: i32) -> Self {
        if raw == 0 {
            FadeInType::NoFade
        } else if raw == 1 {
            FadeInType::Use
        } else {
            FadeInType::Unknown(raw)
        }
    }

    fn from_code(raw: i32) -> (r: Self) {
        if raw == 0 {
            FadeInType::NoFade
        } else if raw == 1 {
            FadeInType::Use
        } else {
            FadeInType::Unknown(raw)
        }
    }

    open spec fn spec_is_unknown(&self) -> bool {
        self is Unknown
    }

    fn is_unknown(&self) -> (b: bool) {
        match self {
            FadeInType::Unknown(_) => true,
            _ => false,
        }
    }
}

/// Fade-out mode.
///
/// Values not listed are kept as `Unknown` with their raw code.
#[derive(Clone, Copy, Debug, PartialEq, Eq, Structural)]
pub enum FadeOutType {
    /// Code `0`.
    NoFade,
    /// Code `1`.
    WithinLifetime,
    /// Code `2`.
    AfterRemoved,
    /// A code this library does not know.
    Unknown(i32),
}

impl IsUnknown for FadeOutType {
    open spec fn spec_from_code(raw: i32) -> Self {
        if raw == 0 {
            FadeOutType::NoFade
        } else if raw == 1 {
            FadeOutType::WithinLifetime
        } else if raw == 2 {
            FadeOutType::AfterRemoved
        } else {
            FadeOutType::Unknown(raw)
        }
    }

    fn from_code(raw: i32) -> (r: Self) {
        if raw == 0 {
            FadeOutType::NoFade
        } else if raw == 1 {
            FadeOutType::WithinLifetime
        } else if raw == 2 {
            FadeOutType::AfterRemoved
        } else {
            FadeOutType::Unknown(raw)
        }
    }

    open spec fn spec_is_unknown(&self) -> bool {
        self is Unknown
    }

    fn is_unknown(&self) -> (b: bool) {
        match self {
            FadeOutType::Unknown(_) => true,
            _ => false,
        }
    }
}

/// Kind of UV animation.
///
/// Values not listed are kept as `Unknown` with their raw code.
#[derive(Clone, Copy, Debug, PartialEq, Eq, Structural)]
pub enum UVAnimationType {
    /// Code `0`.
    Default,
    /// Code `1`.
    Fixed,
    /// Code `2`.
    Animation,
    /// Code `3`.
    Scroll,
    /// Code `4`.
    FCurve,
    /// A code this library does not know.
    Unknown(i32),
}

impl IsUnknown for UVAnimationType {
    open spec fn spec_from_code(raw: i32) -> Self {
        if raw == 0 {
            UVAnimationType::Default
        } else if raw == 1 {
            UVAnimationType::Fixed
        } else if raw == 2 {
            UVAnimationType::Animation
        } else if raw == 3 {
            UVAnimationType::Scroll
        } else if raw == 4 {
            UVAnimationType::FCurve
        } else {
            UVAnimationType::Unknown(raw)
        }
    }

    fn from_code(raw: i32) -> (r: Self) {
        if raw == 0 {
            UVAnimationType::Default
        } else if raw == 1 {
            UVAnimationType::Fixed
        } else if raw == 2 {
            UVAnimationType::Animation
        } else if raw == 3 {
            UVAnimationType::Scroll
        } else if raw == 4 {
            UVAnimationType::FCurve
        } else {
            UVAnimationType::Unknown(raw)
        }
    }

    open spec fn spec_is_unknown(&self) -> bool {
        self is Unknown
    }

    fn is_unknown(&self) -> (b: bool) {
        match self {
            UVAnimationType::Unknown(_) => true,
            _ => false,
        }
    }
}

/// Loop mode of a UV animation.
///
/// Values not listed are kept as `Unknown` with their raw code.
#[derive(Clone, Copy, Debug, PartialEq, Eq, Structural)]
pub enum UVAnimationLoopType {
    /// Code `0`.
    Once,
    /// Code `1`.
    Loop,
    /// Code `2`.
    ReverseLoop,
    /// A code this library does not know.
    Unknown(i32),
}

impl IsUnknown for UVAnimationLoopType {
    open spec fn spec_from_code(raw: i32) -> Self {
        if raw == 0 {
            UVAnimationLoopType::Once
        } else if raw == 1 {
            UVAnimationLoopType::Loop
        } else if raw == 2 {
            UVAnimationLoopType::ReverseLoop
        } else {
            UVAnimationLoopType::Unknown(raw)
        }
    }

    fn from_code(raw: i32) -> (r: Self) {
        if raw == 0 {
            UVAnimationLoopType::Once
        } else if raw == 1 {
            UVAnimationLoopType::Loop
        } else if raw == 2 {
            UVAnimationLoopType::ReverseLoop
        } else {
            UVAnimationLoopType::Unknown(raw)
        }
    }

    open spec fn spec_is_unknown(&self) -> bool {
        self is Unknown
    }

    fn is_unknown(&self) -> (b: bool) {
        match self {
            UVAnimationLoopType::Unknown(_) => true,
            _ => false,
        }
    }
}

/// Interpolation between UV animation frames.
///
/// Values not listed are kept as `Unknown` with their raw code.
#[derive(Clone, Copy, Debug, PartialEq, Eq, Structural)]
pub enum UVAnimationInterpolationType {
    /// Code `0`.
    NoInterpolation,
    /// Code `1`.
    Lerp,
    /// A code this library does not know.
    Unknown(i32),
}

impl IsUnknown for UVAnimationInterpolationType {
    open spec fn spec_from_code(raw: i32) -> Self {
        if raw == 0 {
            UVAnimationInterpolationType::NoInterpolation
        } else if raw == 1 {
            UVAnimationInterpolationType::Lerp
        } else {
            UVAnimationInterpolationType::Unknown(raw)
        }
    }

    fn from_code(raw: i32) -> (r: Self) {
        if raw == 0 {
            UVAnimationInterpolationType::NoInterpolation
        } else if raw == 1 {
            UVAnimationInterpolationType::Lerp
        } else {
            UVAnimationInterpolationType::Unknown(raw)
        }
    }

    open spec fn spec_is_unknown(&self) -> bool {
        self is Unknown
    }

    fn is_unknown(&self) -> (b: bool) {
        match self {
            UVAnimationInterpolationType::Unknown(_) => true,
            _ => false,
        }
    }
}

/// Kind of custom data.
///
/// Values not listed are kept as `Unknown` with their raw code.
#[derive(Clone, Copy, Debug, PartialEq, Eq, Structural)]
pub enum ParameterCustomDataType {
    /// Code `0`.
    NoData,
    /// Code `20`.
    Fixed2D,
    /// Code `21`.
    Random2D,
    /// Code `22`.
    Easing2D,
    /// Code `23`.
    FCurve2D,
    /// Code `40`.
    Fixed4D,
    /// Code `53`.
    FCurveColor,
    /// Code `60`.
    DynamicInput,
    /// A code this library does not know.
    Unknown(i32),
}

impl IsUnknown for ParameterCustomDataType {
    open spec fn spec_from_code(raw: i32) -> Self {
        if raw == 0 {
            ParameterCustomDataType::NoData
        } else if raw == 20 {
            ParameterCustomDataType::Fixed2D
        } else if raw == 21 {
            ParameterCustomDataType::Random2D
        } else if raw == 22 {
            ParameterCustomDataType::Easing2D
        } else if raw == 23 {
            ParameterCustomDataType::FCurve2D
        } else if raw == 40 {
            ParameterCustomDataType::Fixed4D
        } else if raw == 53 {
            ParameterCustomDataType::FCurveColor
        } else if raw == 60 {
            ParameterCustomDataType::DynamicInput
        } else {
            ParameterCustomDataType::Unknown(raw)
        }
    }

    fn from_code(raw: i32) -> (r: Self) {
        if raw == 0 {
            ParameterCustomDataType::NoData
        } else if raw == 20 {
            ParameterCustomDataType::Fixed2D
        } else if raw == 21 {
            ParameterCustomDataType::Random2D
        } else if raw == 22 {
            ParameterCustomDataType::Easing2D
        } else if raw == 23 {
            ParameterCustomDataType::FCurve2D
        } else if raw == 40 {
            ParameterCustomDataType::Fixed4D
        } else if raw == 53 {
            ParameterCustomDataType::FCurveColor
        } else if raw == 60 {
            ParameterCustomDataType::DynamicInput
        } else {
            ParameterCustomDataType::Unknown(raw)
        }
    }

    open spec fn spec_is_unknown(&self) -> bool {
        self is Unknown
    }

    fn is_unknown(&self) -> (b: bool) {
        match self {
            ParameterCustomDataType::Unknown(_) => true,
            _ => false,
        }
    }
}

/// Kind of color parameter.
///
/// Values not listed are kept as `Unknown` with their raw code.
#[derive(Clone, Copy, Debug, PartialEq, Eq, Structural)]
pub enum AllTypeColorType {
    /// Code `0`.
    Fixed,
    /// Code `1`.
    Random,
    /// Code `2`.
    Easing,
    /// Code `3`.
    FCurveRgba,
    /// Code `4`.
    Gradient,
    /// A code this library does not know.
    Unknown(i32),
}

impl IsUnknown for AllTypeColorType {
    open spec fn spec_from_code(raw: i32) -> Self {
        if raw == 0 {
            AllTypeColorType::Fixed
        } else if raw == 1 {
            AllTypeColorType::Random
        } else if raw == 2 {
            AllTypeColorType::Easing
        } else if raw == 3 {
            AllTypeColorType::FCurveRgba
        } else if raw == 4 {
            AllTypeColorType::Gradient
        } else {
            AllTypeColorType::Unknown(raw)
        }
    }

    fn from_code(raw: i32) -> (r: Self) {
        if raw == 0 {
            AllTypeColorType::Fixed
        } else if raw == 1 {
            AllTypeColorType::Random
        } else if raw == 2 {
            AllTypeColorType::Easing
        } else if raw == 3 {
            AllTypeColorType::FCurveRgba
        } else if raw == 4 {
            AllTypeColorType::Gradient
        } else {
            AllTypeColorType::Unknown(raw)
        }
    }

    open spec fn spec_is_unknown(&self) -> bool {
        self is Unknown
    }

    fn is_unknown(&self) -> (b: bool) {
        match self {
            AllTypeColorType::Unknown(_) => true,
            _ => false,
        }
    }
}

/// Shape of a ring.
///
/// Values not listed are kept as `Unknown` with their raw code.
#[derive(Clone, Copy, Debug, PartialEq, Eq, Structural)]
pub enum RingShapeType {
    /// Code `0`.
    Donut,
    /// Code `1`.
    Crescent,
    /// A code this library does not know.
    Unknown(i32),
}

impl IsUnknown for RingShapeType {
    open spec fn spec_from_code(raw: i32) -> Self {
        if raw == 0 {
            RingShapeType::Donut
        } else if raw == 1 {
            RingShapeType::Crescent
        } else {
            RingShapeType::Unknown(raw)
        }
    }

    fn from_code(raw: i32) -> (r: Self) {
        if raw == 0 {
            RingShapeType::Donut
        } else if raw == 1 {
            RingShapeType::Crescent
        } else {
            RingShapeType::Unknown(raw)
        }
    }

    open spec fn spec_is_unknown(&self) -> bool {
        self is Unknown
    }

    fn is_unknown(&self) -> (b: bool) {
        match self {
            RingShapeType::Unknown(_) => true,
            _ => false,
        }
    }
}

/// Kind of scalar ring parameter.
///
/// Values not listed are kept as `Unknown` with their raw code.
#[derive(Clone, Copy, Debug, PartialEq, Eq, Structural)]
pub enum RingSingleType {
    /// Code `0`.
    Fixed,
    /// Code `1`.
    Random,
    /// Code `2`.
    Easing,
    /// A code this library does not know.
    Unknown(i32),
}

impl IsUnknown for RingSingleType {
    open spec fn spec_from_code(raw: i32) -> Self {
        if raw == 0 {
            RingSingleType::Fixed
        } else if raw == 1 {
            RingSingleType::Random
        } else if raw == 2 {
            RingSingleType::Easing
        } else {
            RingSingleType::Unknown(raw)
        }
    }

    fn from_code(raw: i32) -> (r: Self) {
        if raw == 0 {
            RingSingleType::Fixed
        } else if raw == 1 {
            RingSingleType::Random
        } else if raw == 2 {
            RingSingleType::Easing
        } else {
            RingSingleType::Unknown(raw)
        }
    }

    open spec fn spec_is_unknown(&self) -> bool {
        self is Unknown
    }

    fn is_unknown(&self) -> (b: bool) {
        match self {
            RingSingleType::Unknown(_) => true,
            _ => false,
        }
    }
}

/// Kind of ring location parameter.
///
/// Values not listed are kept as `Unknown` with their raw code.
#[derive(Clone, Copy, Debug, PartialEq, Eq, Structural)]
pub enum RingLocationType {
    /// Code `0`.
    Fixed,
    /// Code `1`.
    Pva,
    /// Code `2`.
    Easing,
    /// A code this library does not know.
    Unknown(i32),
}

impl IsUnknown for RingLocationType {
    open spec fn spec_from_code(raw: i32) -> Self {
        if raw == 0 {
            RingLocationType::Fixed
        } else if raw == 1 {
            RingLocationType::Pva
        } else if raw == 2 {
            RingLocationType::Easing
        } else {
            RingLocationType::Unknown(raw)
        }
    }

    fn from_code(raw: i32) -> (r: Self) {
        if raw == 0 {
            RingLocationType::Fixed
        } else if raw == 1 {
            RingLocationType::Pva
        } else if raw == 2 {
            RingLocationType::Easing
        } else {
            RingLocationType::Unknown(raw)
        }
    }

    open spec fn spec_is_unknown(&self) -> bool {
        self is Unknown
    }

    fn is_unknown(&self) -> (b: bool) {
        match self {
            RingLocationType::Unknown(_) => true,
            _ => false,
        }
    }
}

/// How a texture is mapped along a trail.
///
/// Values not listed are kept as `Unknown` with their raw code.
#[derive(Clone, Copy, Debug, PartialEq, Eq, Structural)]
pub enum TextureUVType {
    /// Code `0`.
    Stretch,
    /// Code `1`.
    TilePerParticle,
    /// Code `2`.
    Tile,
    /// A code this library does not know.
    Unknown(i32),
}

impl IsUnknown for TextureUVType {
    open spec fn spec_from_code(raw: i32) -> Self {
        if raw == 0 {
            TextureUVType::Stretch
        } else if raw == 1 {
            TextureUVType::TilePerParticle
        } else if raw == 2 {
            TextureUVType::Tile
        } else {
            TextureUVType::Unknown(raw)
        }
    }

    fn from_code(raw: i32) -> (r: Self) {
        if raw == 0 {
            TextureUVType::Stretch
        } else if raw == 1 {
            TextureUVType::TilePerParticle
        } else if raw == 2 {
            TextureUVType::Tile
        } else {
            TextureUVType::Unknown(raw)
        }
    }

    open spec fn spec_is_unknown(&self) -> bool {
        self is Unknown
    }

    fn is_unknown(&self) -> (b: bool) {
        match self {
            TextureUVType::Unknown(_) => true,
            _ => false,
        }
    }
}

/// Kind of track size parameter.
///
/// Values not listed are kept as `Unknown` with their raw code.
#[derive(Clone, Copy, Debug, PartialEq, Eq, Structural)]
pub enum TrackSizeType {
    /// Code `0`.
    Fixed,
    /// A code this library does not know.
    Unknown(i32),
}

impl IsUnknown for TrackSizeType {
    open spec fn spec_from_code(raw: i32) -> Self {
        if raw == 0 {
            TrackSizeType::Fixed
        } else {
            TrackSizeType::Unknown(raw)
        }
    }

    fn from_code(raw: i32) -> (r: Self) {
        if raw == 0 {
            TrackSizeType::Fixed
        } else {
            TrackSizeType::Unknown(raw)
        }
    }

    open spec fn spec_is_unknown(&self) -> bool {
        self is Unknown
    }

    fn is_unknown(&self) -> (b: bool) {
        match self {
            TrackSizeType::Unknown(_) => true,
            _ => false,
        }
    }
}

/// Time base of a trail.
///
/// Values not listed are kept as `Unknown` with their raw code.
#[derive(Clone, Copy, Debug, PartialEq, Eq, Structural)]
pub enum TrailTimeType {
    /// Code `0`.
    FirstParticle,
    /// Code `1`.
    ParticleGroup,
    /// A code this library does not know.
    Unknown(i32),
}

impl IsUnknown for TrailTimeType {
    open spec fn spec_from_code(raw: i32) -> Self {
        if raw == 0 {
            TrailTimeType::FirstParticle
        } else if raw == 1 {
            TrailTimeType::ParticleGroup
        } else {
            TrailTimeType::Unknown(raw)
        }
    }

    fn from_code(raw: i32) -> (r: Self) {
        if raw == 0 {
            TrailTimeType::FirstParticle
        } else if raw == 1 {
            TrailTimeType::ParticleGroup
        } else {
            TrailTimeType::Unknown(raw)
        }
    }

    open spec fn spec_is_unknown(&self) -> bool {
        self is Unknown
    }

    fn is_unknown(&self) -> (b: bool) {
        match self {
            TrailTimeType::Unknown(_) => true,
            _ => false,
        }
    }
}

/// Smoothing of a trail.
///
/// Values not listed are kept as `Unknown` with their raw code.
#[derive(Clone, Copy, Debug, PartialEq, Eq, Structural)]
pub enum TrailSmoothingType {
    /// Code `0`.
    Off,
    /// Code `1`.
    On,
    /// A code this library does not know.
    Unknown(i32),
}

impl IsUnknown for TrailSmoothingType {
    open spec fn spec_from_code(raw: i32) -> Self {
        if raw == 0 {
            TrailSmoothingType::Off
        } else if raw == 1 {
            TrailSmoothingType::On
        } else {
            TrailSmoothingType::Unknown(raw)
        }
    }

    fn from_code(raw: i32) -> (r: Self) {
        if raw == 0 {
            TrailSmoothingType::Off
        } else if raw == 1 {
            TrailSmoothingType::On
        } else {
            TrailSmoothingType::Unknown(raw)
        }
    }

    open spec fn spec_is_unknown(&self) -> bool {
        self is Unknown
    }

    fn is_unknown(&self) -> (b: bool) {
        match self {
            TrailSmoothingType::Unknown(_) => true,
            _ => false,
        }
    }
}

/// Drawing order of instances.
///
/// Values not listed are kept as `Unknown` with their raw code.
#[derive(Clone, Copy, Debug, PartialEq, Eq, Structural)]
pub enum RenderingOrder {
    /// Code `0`.
    FirstCreatedInstanceIsFirst,
    /// Code `1`.
    FirstCreatedInstanceIsLast,
    /// A code this library does not know.
    Unknown(i32),
}

impl IsUnknown for RenderingOrder {
    open spec fn spec_from_code(raw: i32) -> Self {
        if raw == 0 {
            RenderingOrder::FirstCreatedInstanceIsFirst
        } else if raw == 1 {
            RenderingOrder::FirstCreatedInstanceIsLast
        } else {
            RenderingOrder::Unknown(raw)
        }
    }

    fn from_code(raw: i32) -> (r: Self) {
        if raw == 0 {
            RenderingOrder::FirstCreatedInstanceIsFirst
        } else if raw == 1 {
            RenderingOrder::FirstCreatedInstanceIsLast
        } else {
            RenderingOrder::Unknown(raw)
        }
    }

    open spec fn spec_is_unknown(&self) -> bool {
        self is Unknown
    }

    fn is_unknown(&self) -> (b: bool) {
        match self {
            RenderingOrder::Unknown(_) => true,
            _ => false,
        }
    }
}

/// Billboard mode.
///
/// Values not listed are kept as `Unknown` with their raw code.
#[derive(Clone, Copy, Debug, PartialEq, Eq, Structural)]
pub enum BillboardType {
    /// Code `0`.
    Billboard,
    /// Code `1`.
    YAxisFixed,
    /// Code `2`.
    Fixed,
    /// Code `3`.
    RotatedBillboard,
    /// Code `4`.
    DirectionalBillboard,
    /// A code this library does not know.
    Unknown(i32),
}

impl IsUnknown for BillboardType {
    open spec fn spec_from_code(raw: i32) -> Self {
        if raw == 0 {
            BillboardType::Billboard
        } else if raw == 1 {
            BillboardType::YAxisFixed
        } else if raw == 2 {
            BillboardType::Fixed
        } else if raw == 3 {
            BillboardType::RotatedBillboard
        } else if raw == 4 {
            BillboardType::DirectionalBillboard
        } else {
            BillboardType::Unknown(raw)
        }
    }

    fn from_code(raw: i32) -> (r: Self) {
        if raw == 0 {
            BillboardType::Billboard
        } else if raw == 1 {
            BillboardType::YAxisFixed
        } else if raw == 2 {
            BillboardType::Fixed
        } else if raw == 3 {
            BillboardType::RotatedBillboard
        } else if raw == 4 {
            BillboardType::DirectionalBillboard
        } else {
            BillboardType::Unknown(raw)
        }
    }

    open spec fn spec_is_unknown(&self) -> bool {
        self is Unknown
    }

    fn is_unknown(&self) -> (b: bool) {
        match self {
            BillboardType::Unknown(_) => true,
            _ => false,
        }
    }
}

/// Face culling mode.
///
/// Values not listed are kept as `Unknown` with their raw code.
#[derive(Clone, Copy, Debug, PartialEq, Eq, Structural)]
pub enum CullingType {
    /// Code `0`.
    Front,
    /// Code `1`.
    Back,
    /// Code `2`.
    Double,
    /// A code this library does not know.
    Unknown(i32),
}

impl IsUnknown for CullingType {
    open spec fn spec_from_code(raw: i32) -> Self {
        if raw == 0 {
            CullingType::Front
        } else if raw == 1 {
            CullingType::Back
        } else if raw == 2 {
            CullingType::Double
        } else {
            CullingType::Unknown(raw)
        }
    }

    fn from_code(raw: i32) -> (r: Self) {
        if raw == 0 {
            CullingType::Front
        } else if raw == 1 {
            CullingType::Back
        } else if raw == 2 {
            CullingType::Double
        } else {
            CullingType::Unknown(raw)
        }
    }

    open spec fn spec_is_unknown(&self) -> bool {
        self is Unknown
    }

    fn is_unknown(&self) -> (b: bool) {
        match self {
            CullingType::Unknown(_) => true,
            _ => false,
        }
    }
}

/// Whether a node plays a sound.
///
/// Values not listed are kept as `Unknown` with their raw code.
#[derive(Clone, Copy, Debug, PartialEq, Eq, Structural)]
pub enum ParameterSoundType {
    /// Code `0`.
    NoSound,
    /// Code `1`.
    Use,
    /// A code this library does not know.
    Unknown(i32),
}

impl IsUnknown for ParameterSoundType {
    open spec fn spec_from_code(raw: i32) -> Self {
        if raw == 0 {
            ParameterSoundType::NoSound
        } else if raw == 1 {
            ParameterSoundType::Use
        } else {
            ParameterSoundType::Unknown(raw)
        }
    }

    fn from_code(raw: i32) -> (r: Self) {
        if raw == 0 {
            ParameterSoundType::NoSound
        } else if raw == 1 {
            ParameterSoundType::Use
        } else {
            ParameterSoundType::Unknown(raw)
        }
    }

    open spec fn spec_is_unknown(&self) -> bool {
        self is Unknown
    }

    fn is_unknown(&self) -> (b: bool) {
        match self {
            ParameterSoundType::Unknown(_) => true,
            _ => false,
        }
    }
}

/// Sound panning mode.
///
/// Values not listed are kept as `Unknown` with their raw code.
#[derive(Clone, Copy, Debug, PartialEq, Eq, Structural)]
pub enum ParameterSoundPanType {
    /// Code `0`.
    Pan2D,
    /// Code `1`.
    Pan3D,
    /// A code this library does not know.
    Unknown(i32),
}

impl IsUnknown for ParameterSoundPanType {
    open spec fn spec_from_code(raw: i32) -> Self {
        if raw == 0 {
            ParameterSoundPanType::Pan2D
        } else if raw == 1 {
            ParameterSoundPanType::Pan3D
        } else {
            ParameterSoundPanType::Unknown(raw)
        }
    }

    fn from_code(raw: i32) -> (r: Self) {
        if raw == 0 {
            ParameterSoundPanType::Pan2D
        } else if raw == 1 {
            ParameterSoundPanType::Pan3D
        } else {
            ParameterSoundPanType::Unknown(raw)
        }
    }

    open spec fn spec_is_unknown(&self) -> bool {
        self is Unknown
    }

    fn is_unknown(&self) -> (b: bool) {
        match self {
            ParameterSoundPanType::Unknown(_) => true,
            _ => false,
        }
    }
}

/// Blending of a falloff color.
///
/// Values not listed are kept as `Unknown` with their raw code.
#[derive(Clone, Copy, Debug, PartialEq, Eq, Structural)]
pub enum FalloffBlendType {
    /// Code `0`.
    Add,
    /// Code `1`.
    Sub,
    /// Code `2`.
    Mul,
    /// A code this library does not know.
    Unknown(i32),
}

impl IsUnknown for FalloffBlendType {
    open spec fn spec_from_code(raw: i32) -> Self {
        if raw == 0 {
            FalloffBlendType::Add
        } else if raw == 1 {
            FalloffBlendType::Sub
        } else if raw == 2 {
            FalloffBlendType::Mul
        } else {
            FalloffBlendType::Unknown(raw)
        }
    }

    fn from_code(raw: i32) -> (r: Self) {
        if raw == 0 {
            FalloffBlendType::Add
        } else if raw == 1 {
            FalloffBlendType::Sub
        } else if raw == 2 {
            FalloffBlendType::Mul
        } else {
            FalloffBlendType::Unknown(raw)
        }
    }

    open spec fn spec_is_unknown(&self) -> bool {
        self is Unknown
    }

    fn is_unknown(&self) -> (b: bool) {
        match self {
            FalloffBlendType::Unknown(_) => true,
            _ => false,
        }
    }
}

/// Shape drawn by GPU particles.
///
/// Values not listed are kept as `Unknown` with their raw code.
#[derive(Clone, Copy, Debug, PartialEq, Eq, Structural)]
pub enum GpuRenderShape {
    /// Code `0`.
    Sprite,
    /// Code `1`.
    Model,
    /// Code `2`.
    Trail,
    /// A code this library does not know.
    Unknown(i32),
}

impl IsUnknown for GpuRenderShape {
    open spec fn spec_from_code(raw: i32) -> Self {
        if raw == 0 {
            GpuRenderShape::Sprite
        } else if raw == 1 {
            GpuRenderShape::Model
        } else if raw == 2 {
            GpuRenderShape::Trail
        } else {
            GpuRenderShape::Unknown(raw)
        }
    }

    fn from_code(raw: i32) -> (r: Self) {
        if raw == 0 {
            GpuRenderShape::Sprite
        } else if raw == 1 {
            GpuRenderShape::Model
        } else if raw == 2 {
            GpuRenderShape::Trail
        } else {
            GpuRenderShape::Unknown(raw)
        }
    }

    open spec fn spec_is_unknown(&self) -> bool {
        self is Unknown
    }

    fn is_unknown(&self) -> (b: bool) {
        match self {
            GpuRenderShape::Unknown(_) => true,
            _ => false,
        }
    }
}

/// Emitter shape of GPU particles.
///
/// Values not listed are kept as `Unknown` with their raw code.
#[derive(Clone, Copy, Debug, PartialEq, Eq, Structural)]
pub enum GpuEmitShape {
    /// Code `0`.
    Point,
    /// Code `1`.
    Line,
    /// Code `2`.
    Circle,
    /// Code `3`.
    Sphere,
    /// Code `4`.
    Model,
    /// A code this library does not know.
    Unknown(i32),
}

impl IsUnknown for GpuEmitShape {
    open spec fn spec_from_code(raw: i32) -> Self {
        if raw == 0 {
            GpuEmitShape::Point
        } else if raw == 1 {
            GpuEmitShape::Line
        } else if raw == 2 {
            GpuEmitShape::Circle
        } else if raw == 3 {
            GpuEmitShape::Sphere
        } else if raw == 4 {
            GpuEmitShape::Model
        } else {
            GpuEmitShape::Unknown(raw)
        }
    }

    fn from_code(raw: i32) -> (r: Self) {
        if raw == 0 {
            GpuEmitShape::Point
        } else if raw == 1 {
            GpuEmitShape::Line
        } else if raw == 2 {
            GpuEmitShape::Circle
        } else if raw == 3 {
            GpuEmitShape::Sphere
        } else if raw == 4 {
            GpuEmitShape::Model
        } else {
            GpuEmitShape::Unknown(raw)
        }
    }

    open spec fn spec_is_unknown(&self) -> bool {
        self is Unknown
    }

    fn is_unknown(&self) -> (b: bool) {
        match self {
            GpuEmitShape::Unknown(_) => true,
            _ => false,
        }
    }
}

/// Kind of GPU particle scale.
///
/// Values not listed are kept as `Unknown` with their raw code.
#[derive(Clone, Copy, Debug, PartialEq, Eq, Structural)]
pub enum GpuScaleType {
    /// Code `0`.
    Fixed,
    /// Code `1`.
    Pva,
    /// Code `2`.
    Easing,
    /// A code this library does not know.
    Unknown(i32),
}

impl IsUnknown for GpuScaleType {
    open spec fn spec_from_code(raw: i32) -> Self {
        if raw == 0 {
            GpuScaleType::Fixed
        } else if raw == 1 {
            GpuScaleType::Pva
        } else if raw == 2 {
            GpuScaleType::Easing
        } else {
            GpuScaleType::Unknown(raw)
        }
    }

    fn from_code(raw: i32) -> (r: Self) {
        if raw == 0 {
            GpuScaleType::Fixed
        } else if raw == 1 {
            GpuScaleType::Pva
        } else if raw == 2 {
            GpuScaleType::Easing
        } else {
            GpuScaleType::Unknown(raw)
        }
    }

    open spec fn spec_is_unknown(&self) -> bool {
        self is Unknown
    }

    fn is_unknown(&self) -> (b: bool) {
        match self {
            GpuScaleType::Unknown(_) => true,
            _ => false,
        }
    }
}

/// Kind of GPU particle color.
///
/// Values not listed are kept as `Unknown` with their raw code.
#[derive(Clone, Copy, Debug, PartialEq, Eq, Structural)]
pub enum GpuColorParamType {
    /// Code `0`.
    Fixed,
    /// Code `1`.
    Random,
    /// Code `2`.
    Easing,
    /// Code `3`.
    FCurve,
    /// Code `4`.
    Gradient,
    /// A code this library does not know.
    Unknown(i32),
}

impl IsUnknown for GpuColorParamType {
    open spec fn spec_from_code(raw: i32) -> Self {
        if raw == 0 {
            GpuColorParamType::Fixed
        } else if raw == 1 {
            GpuColorParamType::Random
        } else if raw == 2 {
            GpuColorParamType::Easing
        } else if raw == 3 {
            GpuColorParamType::FCurve
        } else if raw == 4 {
            GpuColorParamType::Gradient
        } else {
            GpuColorParamType::Unknown(raw)
        }
    }

    fn from_code(raw: i32) -> (r: Self) {
        if raw == 0 {
            GpuColorParamType::Fixed
        } else if raw == 1 {
            GpuColorParamType::Random
        } else if raw == 2 {
            GpuColorParamType::Easing
        } else if raw == 3 {
            GpuColorParamType::FCurve
        } else if raw == 4 {
            GpuColorParamType::Gradient
        } else {
            GpuColorParamType::Unknown(raw)
        }
    }

    open spec fn spec_is_unknown(&self) -> bool {
        self is Unknown
    }

    fn is_unknown(&self) -> (b: bool) {
        match self {
            GpuColorParamType::Unknown(_) => true,
            _ => false,
        }
    }
}

/// Color space of GPU particle colors.
///
/// Values not listed are kept as `Unknown` with their raw code.
#[derive(Clone, Copy, Debug, PartialEq, Eq, Structural)]
pub enum GpuColorSpaceType {
    /// Code `0`.
    Rgba,
    /// Code `1`.
    Hsva,
    /// A code this library does not know.
    Unknown(i32),
}

impl IsUnknown for GpuColorSpaceType {
    open spec fn spec_from_code(raw: i32) -> Self {
        if raw == 0 {
            GpuColorSpaceType::Rgba
        } else if raw == 1 {
            GpuColorSpaceType::Hsva
        } else {
            GpuColorSpaceType::Unknown(raw)
        }
    }

    fn from_code(raw: i32) -> (r: Self) {
        if raw == 0 {
            GpuColorSpaceType::Rgba
        } else if raw == 1 {
            GpuColorSpaceType::Hsva
        } else {
            GpuColorSpaceType::Unknown(raw)
        }
    }

    open spec fn spec_is_unknown(&self) -> bool {
        self is Unknown
    }

    fn is_unknown(&self) -> (b: bool) {
        match self {
            GpuColorSpaceType::Unknown(_) => true,
            _ => false,
        }
    }
}

/// Material of GPU particles.
///
/// Values not listed are kept as `Unknown` with their raw code.
#[derive(Clone, Copy, Debug, PartialEq, Eq, Structural)]
pub enum GpuMaterialType {
    /// Code `0`.
    Unlit,
    /// Code `1`.
    Lighting,
    /// A code this library does not know.
    Unknown(i32),
}

impl IsUnknown for GpuMaterialType {
    open spec fn spec_from_code(raw: i32) -> Self {
        if raw == 0 {
            GpuMaterialType::Unlit
        } else if raw == 1 {
            GpuMaterialType::Lighting
        } else {
            GpuMaterialType::Unknown(raw)
        }
    }

    fn from_code(raw: i32) -> (r: Self) {
        if raw == 0 {
            GpuMaterialType::Unlit
        } else if raw == 1 {
            GpuMaterialType::Lighting
        } else {
            GpuMaterialType::Unknown(raw)
        }
    }

    open spec fn spec_is_unknown(&self) -> bool {
        self is Unknown
    }

    fn is_unknown(&self) -> (b: bool) {
        match self {
            GpuMaterialType::Unknown(_) => true,
            _ => false,
        }
    }
}

/// Kind of procedural model.
///
/// Values not listed are kept as `Unknown` with their raw code.
#[derive(Clone, Copy, Debug, PartialEq, Eq, Structural)]
pub enum ProceduralModelType {
    /// Code `0`.
    Mesh,
    /// Code `1`.
    Ribbon,
    /// A code this library does not know.
    Unknown(i32),
}

impl IsUnknown for ProceduralModelType {
    open spec fn spec_from_code(raw: i32) -> Self {
        if raw == 0 {
            ProceduralModelType::Mesh
        } else if raw == 1 {
            ProceduralModelType::Ribbon
        } else {
            ProceduralModelType::Unknown(raw)
        }
    }

    fn from_code(raw: i32) -> (r: Self) {
        if raw == 0 {
            ProceduralModelType::Mesh
        } else if raw == 1 {
            ProceduralModelType::Ribbon
        } else {
            ProceduralModelType::Unknown(raw)
        }
    }

    open spec fn spec_is_unknown(&self) -> bool {
        self is Unknown
    }

    fn is_unknown(&self) -> (b: bool) {
        match self {
            ProceduralModelType::Unknown(_) => true,
            _ => false,
        }
    }
}

/// Primitive of a procedural model.
///
/// Values not listed are kept as `Unknown` with their raw code.
#[derive(Clone, Copy, Debug, PartialEq, Eq, Structural)]
pub enum ProceduralModelPrimitiveType {
    /// Code `0`.
    Sphere,
    /// Code `1`.
    Cone,
    /// Code `2`.
    Cylinder,
    /// Code `3`.
    Spline4,
    /// A code this library does not know.
    Unknown(i32),
}

impl IsUnknown for ProceduralModelPrimitiveType {
    open spec fn spec_from_code(raw: i32) -> Self {
        if raw == 0 {
            ProceduralModelPrimitiveType::Sphere
        } else if raw == 1 {
            ProceduralModelPrimitiveType::Cone
        } else if raw == 2 {
            ProceduralModelPrimitiveType::Cylinder
        } else if raw == 3 {
            ProceduralModelPrimitiveType::Spline4
        } else {
            ProceduralModelPrimitiveType::Unknown(raw)
        }
    }

    fn from_code(raw: i32) -> (r: Self) {
        if raw == 0 {
            ProceduralModelPrimitiveType::Sphere
        } else if raw == 1 {
            ProceduralModelPrimitiveType::Cone
        } else if raw == 2 {
            ProceduralModelPrimitiveType::Cylinder
        } else if raw == 3 {
            ProceduralModelPrimitiveType::Spline4
        } else {
            ProceduralModelPrimitiveType::Unknown(raw)
        }
    }

    open spec fn spec_is_unknown(&self) -> bool {
        self is Unknown
    }

    fn is_unknown(&self) -> (b: bool) {
        match self {
            ProceduralModelPrimitiveType::Unknown(_) => true,
            _ => false,
        }
    }
}

/// Axis of a procedural model.
///
/// Values not listed are kept as `Unknown` with their raw code.
#[derive(Clone, Copy, Debug, PartialEq, Eq, Structural)]
pub enum ProceduralModelAxisType {
    /// Code `0`.
    X,
    /// Code `1`.
    Y,
    /// Code `2`.
    Z,
    /// A code this library does not know.
    Unknown(i32),
}

impl IsUnknown for ProceduralModelAxisType {
    open spec fn spec_from_code(raw: i32) -> Self {
        if raw == 0 {
            ProceduralModelAxisType::X
        } else if raw == 1 {
            ProceduralModelAxisType::Y
        } else if raw == 2 {
            ProceduralModelAxisType::Z
        } else {
            ProceduralModelAxisType::Unknown(raw)
        }
    }

    fn from_code(raw: i32) -> (r: Self) {
        if raw == 0 {
            ProceduralModelAxisType::X
        } else if raw == 1 {
            ProceduralModelAxisType::Y
        } else if raw == 2 {
            ProceduralModelAxisType::Z
        } else {
            ProceduralModelAxisType::Unknown(raw)
        }
    }

    open spec fn spec_is_unknown(&self) -> bool {
        self is Unknown
    }

    fn is_unknown(&self) -> (b: bool) {
        match self {
            ProceduralModelAxisType::Unknown(_) => true,
            _ => false,
        }
    }
}

/// Cross section of a procedural ribbon.
///
/// Values not listed are kept as `Unknown` with their raw code.
#[derive(Clone, Copy, Debug, PartialEq, Eq, Structural)]
pub enum ProceduralModelCrossSectionType {
    /// Code `0`.
    Plane,
    /// Code `1`.
    Cross,
    /// Code `2`.
    Point,
    /// A code this library does not know.
    Unknown(i32),
}

impl IsUnknown for ProceduralModelCrossSectionType {
    open spec fn spec_from_code(raw: i32) -> Self {
        if raw == 0 {
            ProceduralModelCrossSectionType::Plane
        } else if raw == 1 {
            ProceduralModelCrossSectionType::Cross
        } else if raw == 2 {
            ProceduralModelCrossSectionType::Point
        } else {
            ProceduralModelCrossSectionType::Unknown(raw)
        }
    }

    fn from_code(raw: i32) -> (r: Self) {
        if raw == 0 {
            ProceduralModelCrossSectionType::Plane
        } else if raw == 1 {
            ProceduralModelCrossSectionType::Cross
        } else if raw == 2 {
            ProceduralModelCrossSectionType::Point
        } else {
            ProceduralModelCrossSectionType::Unknown(raw)
        }
    }

    open spec fn spec_is_unknown(&self) -> bool {
        self is Unknown
    }

    fn is_unknown(&self) -> (b: bool) {
        match self {
            ProceduralModelCrossSectionType::Unknown(_) => true,
            _ => false,
        }
    }
}

/// Shading model of a material.
///
/// Values not listed are kept as `Unknown` with their raw code.
#[derive(Clone, Copy, Debug, PartialEq, Eq, Structural)]
pub enum ShadingModelType {
    /// Code `0`.
    Lit,
    /// Code `1`.
    Unlit,
    /// A code this library does not know.
    Unknown(i32),
}

impl IsUnknown for ShadingModelType {
    open spec fn spec_from_code(raw: i32) -> Self {
        if raw == 0 {
            ShadingModelType::Lit
        } else if raw == 1 {
            ShadingModelType::Unlit
        } else {
            ShadingModelType::Unknown(raw)
        }
    }

    fn from_code(raw: i32) -> (r: Self) {
        if raw == 0 {
            ShadingModelType::Lit
        } else if raw == 1 {
            ShadingModelType::Unlit
        } else {
            ShadingModelType::Unknown(raw)
        }
    }

    open spec fn spec_is_unknown(&self) -> bool {
        self is Unknown
    }

    fn is_unknown(&self) -> (b: bool) {
        match self {
            ShadingModelType::Unknown(_) => true,
            _ => false,
        }
    }
}

/// Built-in function that a material needs.
///
/// Values not listed are kept as `Unknown` with their raw code.
#[derive(Clone, Copy, Debug, PartialEq, Eq, Structural)]
pub enum MaterialRequiredMethod {
    /// Code `0`.
    Gradient,
    /// Code `1`.
    Noise,
    /// Code `2`.
    Light,
    /// Code `3`.
    LocalTime,
    /// A code this library does not know.
    Unknown(i32),
}

impl IsUnknown for MaterialRequiredMethod {
    open spec fn spec_from_code(raw: i32) -> Self {
        if raw == 0 {
            MaterialRequiredMethod::Gradient
        } else if raw == 1 {
            MaterialRequiredMethod::Noise
        } else if raw == 2 {
            MaterialRequiredMethod::Light
        } else if raw == 3 {
            MaterialRequiredMethod::LocalTime
        } else {
            MaterialRequiredMethod::Unknown(raw)
        }
    }

    fn from_code(raw: i32) -> (r: Self) {
        if raw == 0 {
            MaterialRequiredMethod::Gradient
        } else if raw == 1 {
            MaterialRequiredMethod::Noise
        } else if raw == 2 {
            MaterialRequiredMethod::Light
        } else if raw == 3 {
            MaterialRequiredMethod::LocalTime
        } else {
            MaterialRequiredMethod::Unknown(raw)
        }
    }

    open spec fn spec_is_unknown(&self) -> bool {
        self is Unknown
    }

    fn is_unknown(&self) -> (b: bool) {
        match self {
            MaterialRequiredMethod::Unknown(_) => true,
            _ => false,
        }
    }
}

/// How a material texture is sampled.
///
/// Values not listed are kept as `Unknown` with their raw code.
#[derive(Clone, Copy, Debug, PartialEq, Eq, Structural)]
pub enum TextureColorType {
    /// Code `0`.
    Color,
    /// Code `1`.
    Value,
    /// A code this library does not know.
    Unknown(i32),
}

impl IsUnknown for TextureColorType {
    open spec fn spec_from_code(raw: i32) -> Self {
        if raw == 0 {
            TextureColorType::Color
        } else if raw == 1 {
            TextureColorType::Value
        } else {
            TextureColorType::Unknown(raw)
        }
    }

    fn from_code(raw: i32) -> (r: Self) {
        if raw == 0 {
            TextureColorType::Color
        } else if raw == 1 {
            TextureColorType::Value
        } else {
            TextureColorType::Unknown(raw)
        }
    }

    open spec fn spec_is_unknown(&self) -> bool {
        self is Unknown
    }

    fn is_unknown(&self) -> (b: bool) {
        match self {
            TextureColorType::Unknown(_) => true,
            _ => false,
        }
    }
}

/// Type of a material uniform.
///
/// Values not listed are kept as `Unknown` with their raw code.
#[derive(Clone, Copy, Debug, PartialEq, Eq, Structural)]
pub enum MaterialUniformType {
    /// Code `0`.
    Float1,
    /// Code `1`.
    Float2,
    /// Code `2`.
    Float3,
    /// Code `3`.
    Float4,
    /// A code this library does not know.
    Unknown(i32),
}

impl IsUnknown for MaterialUniformType {
    open spec fn spec_from_code(raw: i32) -> Self {
        if raw == 0 {
            MaterialUniformType::Float1
        } else if raw == 1 {
            MaterialUniformType::Float2
        } else if raw == 2 {
            MaterialUniformType::Float3
        } else if raw == 3 {
            MaterialUniformType::Float4
        } else {
            MaterialUniformType::Unknown(raw)
        }
    }

    fn from_code(raw: i32) -> (r: Self) {
        if raw == 0 {
            MaterialUniformType::Float1
        } else if raw == 1 {
            MaterialUniformType::Float2
        } else if raw == 2 {
            MaterialUniformType::Float3
        } else if raw == 3 {
            MaterialUniformType::Float4
        } else {
            MaterialUniformType::Unknown(raw)
        }
    }

    open spec fn spec_is_unknown(&self) -> bool {
        self is Unknown
    }

    fn is_unknown(&self) -> (b: bool) {
        match self {
            MaterialUniformType::Unknown(_) => true,
            _ => false,
        }
    }
}

} // verus!
