//! Decoded dynamic equations.

use vstd::prelude::*;

use super::primitives::Quad;

verus! {

/// When an equation is evaluated.
#[derive(Clone, Copy, Debug, PartialEq, Eq, Structural)]
pub enum RunningPhase {
    /// Once per effect instance.
    Global,
    /// Once per particle.
    Local,
}

/// A register that an operator reads or writes.
#[derive(Clone, Copy, Debug, PartialEq, Eq, Structural)]
pub enum RegRef {
    /// Temporary register `i` (`0 <= i < register_count`).
    Temp(u32),
    /// External dynamic input `i` (`0..=3`).
    External(u32),
    /// Global value `i` (only `0`, the global time).
    Global(u32),
    /// Local particle value `i` (`0..=4`).
    Local(u32),
}

/// Operator kinds.
#[derive(Clone, Copy, Debug, PartialEq, Eq, Structural)]
pub enum DynOpType {
    /// Load the constant in attribute 0.
    Constant,
    /// `a + b`.
    Add,
    /// `a - b`.
    Sub,
    /// `a * b`.
    Mul,
    /// `a / b`.
    Div,
    /// `a % b`.
    Mod,
    /// `+a`.
    UnaryAdd,
    /// `-a`.
    UnarySub,
    /// `sin`.
    Sine,
    /// `cos`.
    Cos,
    /// Random number.
    Rand,
    /// Seeded random number.
    RandWithSeed,
    /// `x >= edge ? 1 : 0`.
    Step,
}

/// One decoded operator.
#[derive(Clone, Debug, PartialEq, Eq)]
pub struct DynOp {
    /// Operator kind.
    pub op_type: DynOpType,
    /// Registers read.
    pub inputs: Vec<RegRef>,
    /// Registers written (all temporaries).
    pub outputs: Vec<RegRef>,
    /// Raw attributes (for constants, the `f32` bits).
    pub attributes: Vec<i32>,
}

/// A decoded dynamic equation.
#[derive(Clone, Debug, PartialEq, Eq)]
pub struct DynamicEquation {
    /// Bytecode version.
    pub version: i32,
    /// When the equation runs.
    pub phase: RunningPhase,
    /// Number of temporary registers.
    pub register_count: u32,
    /// The four registers read as the result.
    pub output_registers: Quad<RegRef>,
    /// The operators, in order.
    pub operations: Vec<DynOp>,
}

/// Model of [`DynOp`].
pub struct SpecDynOp {
    /// Operator kind.
    pub op_type: DynOpType,
    /// Registers read.
    pub inputs: Seq<RegRef>,
    /// Registers written.
    pub outputs: Seq<RegRef>,
    /// Raw attributes.
    pub attributes: Seq<i32>,
}

/// Model of [`DynamicEquation`].
pub struct SpecDynamicEquation {
    /// Bytecode version.
    pub version: i32,
    /// When the equation runs.
    pub phase: RunningPhase,
    /// Number of temporary registers.
    pub register_count: u32,
    /// The four result registers.
    pub output_registers: Quad<RegRef>,
    /// The operators.
    pub operations: Seq<SpecDynOp>,
}

impl View for DynOp {
    type V = SpecDynOp;

    open spec fn view(&self) -> SpecDynOp {
        SpecDynOp {
            op_type: self.op_type,
            inputs: self.inputs@,
            outputs: self.outputs@,
            attributes: self.attributes@,
        }
    }
}

impl View for DynamicEquation {
    type V = SpecDynamicEquation;

    open spec fn view(&self) -> SpecDynamicEquation {
        SpecDynamicEquation {
            version: self.version,
            phase: self.phase,
            register_count: self.register_count,
            output_registers: self.output_registers,
            operations: self.operations@.map_values(|op: DynOp| op@),
        }
    }
}

} // verus!
