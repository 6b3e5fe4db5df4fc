//! Dynamic equation bytecode decoder.
//!
//! Decodes the opaque bytecode blobs stored in [`crate::types::effect::Effect::dynamic_equations`]
//! into structured [`DynamicEquation`] values.
//!
//! # Bytecode format
//!
//! Header (all little-endian i32): version, running_phase, register_count,
//! operator_count, output_register\[0..4\].
//!
//! Operator stream (repeats `operator_count` times): op_type, input_count,
//! output_count, attribute_count, then the inputs, outputs and attributes
//! (all i32).

use vstd::prelude::*;

use crate::reader::le32;
use crate::types::dynamic_equation::{
    DynOp, DynOpType, DynamicEquation, RegRef, RunningPhase, SpecDynOp, SpecDynamicEquation,
};
use crate::types::primitives::Quad;

verus! {

/// Errors that can occur when decoding dynamic equation bytecode.
#[allow(inconsistent_fields)]
#[derive(Clone, Copy, Debug, PartialEq, Eq)]
pub enum DecodeError {
    /// The bytecode blob is too short to contain the header.
    HeaderTooShort {
        /// Actual length of the blob.
        len: usize,
    },
    /// An invalid running phase value was encountered.
    InvalidPhase {
        /// The raw i32 value.
        value: i32,
    },
    /// An invalid opcode was encountered.
    InvalidOpcode {
        /// The raw i32 value.
        value: i32,
        /// Operator index (0-based).
        op_index: usize,
    },
    /// An invalid register reference was encountered.
    InvalidRegister {
        /// The raw i32 register index.
        value: i32,
        /// Operator index (0-based), or `None` for output registers.
        op_index: Option<usize>,
    },
    /// The operator stream ended prematurely.
    UnexpectedEndOfOperators {
        /// Operator index being read when data ran out.
        op_index: usize,
    },
    /// The operator stream has trailing bytes after all operators were read.
    TrailingBytes {
        /// Number of unconsumed bytes.
        remaining: usize,
    },
    /// A negative count was encountered.
    NegativeCount {
        /// Field name.
        field: &'static str,
        /// The raw value.
        value: i32,
    },
    /// An output register in an operator refers to a non-temporary register.
    OutputNotTemporary {
        /// The raw register index.
        value: i32,
        /// Operator index (0-based).
        op_index: usize,
    },
}

/// The little-endian `i32` at byte offset `off`.
pub open spec fn i32_at(d: Seq<u8>, off: int) -> i32 {
    le32(d, off) as i32
}

/// The register a raw index names: temporaries below `register_count`,
/// externals at `0x1000..=0x1003`, the global time at `0x1100`, locals at
/// `0x1200..=0x1204`.
pub open spec fn spec_decode_reg_ref(value: i32, register_count: u32) -> Option<RegRef> {
    if value < 0 {
        None
    } else if value < register_count as i32 {
        Some(RegRef::Temp(value as u32))
    } else if 0x1000 <= value <= 0x1003 {
        Some(RegRef::External((value - 0x1000) as u32))
    } else if value == 0x1100 {
        Some(RegRef::Global(0))
    } else if 0x1200 <= value <= 0x1204 {
        Some(RegRef::Local((value - 0x1200) as u32))
    } else {
        None
    }
}

/// The operator a raw opcode names.
pub open spec fn spec_decode_op_type(value: i32) -> Option<DynOpType> {
    if value == 0 {
        Some(DynOpType::Constant)
    } else if value == 1 {
        Some(DynOpType::Add)
    } else if value == 2 {
        Some(DynOpType::Sub)
    } else if value == 3 {
        Some(DynOpType::Mul)
    } else if value == 4 {
        Some(DynOpType::Div)
    } else if value == 5 {
        Some(DynOpType::Mod)
    } else if value == 11 {
        Some(DynOpType::UnaryAdd)
    } else if value == 12 {
        Some(DynOpType::UnarySub)
    } else if value == 21 {
        Some(DynOpType::Sine)
    } else if value == 22 {
        Some(DynOpType::Cos)
    } else if value == 31 {
        Some(DynOpType::Rand)
    } else if value == 32 {
        Some(DynOpType::RandWithSeed)
    } else if value == 50 {
        Some(DynOpType::Step)
    } else {
        None
    }
}

/// The first `k` input registers of operator `idx`, stored from `off`.
pub open spec fn spec_inputs(d: Seq<u8>, rc: u32, off: int, k: nat, idx: usize) -> Result<Seq<RegRef>, DecodeError>
    decreases k,
{
    if k == 0 {
        Ok(Seq::empty())
    } else {
        match spec_inputs(d, rc, off, (k - 1) as nat, idx) {
            Ok(xs) => {
                let raw = i32_at(d, off + 4 * (k - 1));
                match spec_decode_reg_ref(raw, rc) {
                    Some(r) => Ok(xs.push(r)),
                    None => Err(DecodeError::InvalidRegister { value: raw, op_index: Some(idx) }),
                }
            },
            Err(e) => Err(e),
        }
    }
}

/// The first `k` output registers of operator `idx`, stored from `off`; each must
/// be a temporary.
pub open spec fn spec_outputs(d: Seq<u8>, rc: u32, off: int, k: nat, idx: usize) -> Result<Seq<RegRef>, DecodeError>
    decreases k,
{
    if k == 0 {
        Ok(Seq::empty())
    } else {
        match spec_outputs(d, rc, off, (k - 1) as nat, idx) {
            Ok(xs) => {
                let raw = i32_at(d, off + 4 * (k - 1));
                if raw < 0 || raw >= rc as i32 {
                    Err(DecodeError::OutputNotTemporary { value: raw, op_index: idx })
                } else {
                    Ok(xs.push(RegRef::Temp(raw as u32)))
                }
            },
            Err(e) => Err(e),
        }
    }
}

/// The `k` raw attributes stored from `off`.
pub open spec fn spec_attributes(d: Seq<u8>, off: int, k: nat) -> Seq<i32> {
    Seq::new(k, |i: int| i32_at(d, off + 4 * i))
}

/// Decode operator `idx` whose header starts at byte `off`; the result holds the
/// offset after it.
#[verifier::opaque]
pub open spec fn spec_op(d: Seq<u8>, rc: u32, off: int, idx: usize) -> Result<(SpecDynOp, int), DecodeError> {
    if off + 16 > d.len() {
        Err(DecodeError::UnexpectedEndOfOperators { op_index: idx })
    } else {
        let t = i32_at(d, off);
        let ic = i32_at(d, off + 4);
        let oc = i32_at(d, off + 8);
        let ac = i32_at(d, off + 12);
        match spec_decode_op_type(t) {
            None => Err(DecodeError::InvalidOpcode { value: t, op_index: idx }),
            Some(op_type) => {
                if ic < 0 {
                    Err(DecodeError::NegativeCount { field: "input_count", value: ic })
                } else if oc < 0 {
                    Err(DecodeError::NegativeCount { field: "output_count", value: oc })
                } else if ac < 0 {
                    Err(DecodeError::NegativeCount { field: "attribute_count", value: ac })
                } else if off + 16 + (ic + oc + ac) * 4 > d.len() {
                    Err(DecodeError::UnexpectedEndOfOperators { op_index: idx })
                } else {
                    let base = off + 16;
                    match spec_inputs(d, rc, base, ic as nat, idx) {
                        Err(e) => Err(e),
                        Ok(inputs) => match spec_outputs(d, rc, base + 4 * ic, oc as nat, idx) {
                            Err(e) => Err(e),
                            Ok(outputs) => Ok(
                                (
                                    SpecDynOp {
                                        op_type,
                                        inputs,
                                        outputs,
                                        attributes: spec_attributes(d, base + 4 * (ic + oc), ac as nat),
                                    },
                                    base + 4 * (ic + oc + ac),
                                ),
                            ),
                        },
                    }
                }
            },
        }
    }
}

/// Decode the first `n` operators; the result holds the offset after them.
pub open spec fn spec_ops(d: Seq<u8>, rc: u32, n: nat) -> Result<(Seq<SpecDynOp>, int), DecodeError>
    decreases n,
{
    if n == 0 {
        Ok((Seq::empty(), 32))
    } else {
        match spec_ops(d, rc, (n - 1) as nat) {
            Ok((ops, off)) => match spec_op(d, rc, off, (n - 1) as usize) {
                Ok((op, off2)) => Ok((ops.push(op), off2)),
                Err(e) => Err(e),
            },
            Err(e) => Err(e),
        }
    }
}

/// Decode output register `i` of the header.
pub open spec fn spec_output_register(d: Seq<u8>, rc: u32, i: int) -> Result<RegRef, DecodeError> {
    let raw = i32_at(d, 16 + 4 * i);
    match spec_decode_reg_ref(raw, rc) {
        Some(r) => Ok(r),
        None => Err(DecodeError::InvalidRegister { value: raw, op_index: None }),
    }
}

/// Decode the four output registers of the header.
pub open spec fn spec_output_registers(d: Seq<u8>, rc: u32) -> Result<Quad<RegRef>, DecodeError> {
    match spec_output_register(d, rc, 0) {
        Err(e) => Err(e),
        Ok(v0) => match spec_output_register(d, rc, 1) {
            Err(e) => Err(e),
            Ok(v1) => match spec_output_register(d, rc, 2) {
                Err(e) => Err(e),
                Ok(v2) => match spec_output_register(d, rc, 3) {
                    Err(e) => Err(e),
                    Ok(v3) => Ok(Quad { v0, v1, v2, v3 }),
                },
            },
        },
    }
}

/// What decoding a bytecode blob gives.
pub open spec fn spec_decode(d: Seq<u8>) -> Result<SpecDynamicEquation, DecodeError> {
    if d.len() < 32 {
        Err(DecodeError::HeaderTooShort { len: d.len() as usize })
    } else {
        let version = i32_at(d, 0);
        let phase_raw = i32_at(d, 4);
        let rc_raw = i32_at(d, 8);
        let oc_raw = i32_at(d, 12);
        if phase_raw != 0 && phase_raw != 1 {
            Err(DecodeError::InvalidPhase { value: phase_raw })
        } else if rc_raw < 0 {
            Err(DecodeError::NegativeCount { field: "register_count", value: rc_raw })
        } else if oc_raw < 0 {
            Err(DecodeError::NegativeCount { field: "operator_count", value: oc_raw })
        } else {
            let rc = rc_raw as u32;
            match spec_output_registers(d, rc) {
                Err(e) => Err(e),
                Ok(output_registers) => match spec_ops(d, rc, oc_raw as nat) {
                    Err(e) => Err(e),
                    Ok((operations, off)) => {
                        if off != d.len() {
                            Err(DecodeError::TrailingBytes { remaining: (d.len() - off) as usize })
                        } else {
                            Ok(
                                SpecDynamicEquation {
                                    version,
                                    phase: if phase_raw == 0 {
                                        RunningPhase::Global
                                    } else {
                                        RunningPhase::Local
                                    },
                                    register_count: rc,
                                    output_registers,
                                    operations,
                                },
                            )
                        }
                    },
                },
            }
        }
    }
}

proof fn lemma_inputs_err(d: Seq<u8>, rc: u32, off: int, i: nat, n: nat, idx: usize)
    requires
        i <= n,
        spec_inputs(d, rc, off, i, idx) is Err,
    ensures
        spec_inputs(d, rc, off, n, idx) == spec_inputs(d, rc, off, i, idx),
    decreases n - i,
{
    if i < n {
        lemma_inputs_err(d, rc, off, i, (n - 1) as nat, idx);
    }
}

proof fn lemma_outputs_err(d: Seq<u8>, rc: u32, off: int, i: nat, n: nat, idx: usize)
    requires
        i <= n,
        spec_outputs(d, rc, off, i, idx) is Err,
    ensures
        spec_outputs(d, rc, off, n, idx) == spec_outputs(d, rc, off, i, idx),
    decreases n - i,
{
    if i < n {
        lemma_outputs_err(d, rc, off, i, (n - 1) as nat, idx);
    }
}

proof fn lemma_ops_err(d: Seq<u8>, rc: u32, i: nat, n: nat)
    requires
        i <= n,
        spec_ops(d, rc, i) is Err,
    ensures
        spec_ops(d, rc, n) == spec_ops(d, rc, i),
    decreases n - i,
{
    if i < n {
        lemma_ops_err(d, rc, i, (n - 1) as nat);
    }
}

/// Decoded operators never run past the end of the data.
proof fn lemma_ops_in_bounds(d: Seq<u8>, rc: u32, n: nat)
    ensures
        spec_ops(d, rc, n) matches Ok((ops, off)) ==> 32 <= off <= d.len() || (n == 0),
    decreases n,
{
    reveal(spec_op);
    if n > 0 {
        lemma_ops_in_bounds(d, rc, (n - 1) as nat);
    }
}

/// Decode a register index from the raw i32 value.
fn decode_reg_ref(value: i32, register_count: u32) -> (r: Option<RegRef>)
    ensures
        r == spec_decode_reg_ref(value, register_count),
{
    if value < 0 {
        return None;
    }
    let v = value;
    if v < register_count as i32 {
        return Some(RegRef::Temp(v as u32));
    }
    if 0x1000 <= v && v <= 0x1003 {
        return Some(RegRef::External((v - 0x1000) as u32));
    }
    if v == 0x1100 {
        return Some(RegRef::Global(0));
    }
    if 0x1200 <= v && v <= 0x1204 {
        return Some(RegRef::Local((v - 0x1200) as u32));
    }
    None
}

/// Decode a dynamic equation opcode from its raw i32 value.
fn decode_op_type(value: i32) -> (r: Option<DynOpType>)
    ensures
        r == spec_decode_op_type(value),
{
    match value {
        0 => Some(DynOpType::Constant),
        1 => Some(DynOpType::Add),
        2 => Some(DynOpType::Sub),
        3 => Some(DynOpType::Mul),
        4 => Some(DynOpType::Div),
        5 => Some(DynOpType::Mod),
        11 => Some(DynOpType::UnaryAdd),
        12 => Some(DynOpType::UnarySub),
        21 => Some(DynOpType::Sine),
        22 => Some(DynOpType::Cos),
        31 => Some(DynOpType::Rand),
        32 => Some(DynOpType::RandWithSeed),
        50 => Some(DynOpType::Step),
        _ => None,
    }
}

/// Read a little-endian i32 from a byte slice at `offset`.
fn read_i32(data: &[u8], offset: usize) -> (v: i32)
    requires
        offset + 4 <= data@.len(),
    ensures
        v == i32_at(data@, offset as int),
{
    let u = data[offset] as u32 + 256 * (data[offset + 1] as u32) + 65536 * (data[offset + 2] as u32)
        + 16777216 * (data[offset + 3] as u32);
    u as i32
}

/// Decode one operator whose header starts at `offset`.
#[verifier::loop_isolation(false)]
fn decode_op(data: &[u8], register_count: u32, offset: usize, op_idx: usize) -> (res: Result<(DynOp, usize), DecodeError>)
    requires
        offset <= data@.len(),
    ensures
        match res {
            Ok((op, off)) => spec_op(data@, register_count, offset as int, op_idx) == Ok::<_, DecodeError>((op@, off as int)),
            Err(e) => spec_op(data@, register_count, offset as int, op_idx) == Err::<(SpecDynOp, int), DecodeError>(e),
        },
{
    reveal(spec_op);
    let ghost d = data@;
    if data.len() - offset < 16 {
        return Err(DecodeError::UnexpectedEndOfOperators { op_index: op_idx });
    }
    let type_raw = read_i32(data, offset);
    let input_count_raw = read_i32(data, offset + 4);
    let output_count_raw = read_i32(data, offset + 8);
    let attr_count_raw = read_i32(data, offset + 12);
    let mut offset = offset + 16;
    let base = offset;
    let op_type = match decode_op_type(type_raw) {
        Some(t) => t,
        None => {
            return Err(DecodeError::InvalidOpcode { value: type_raw, op_index: op_idx });
        },
    };
    if input_count_raw < 0 {
        return Err(DecodeError::NegativeCount { field: "input_count", value: input_count_raw });
    }
    if output_count_raw < 0 {
        return Err(DecodeError::NegativeCount { field: "output_count", value: output_count_raw });
    }
    if attr_count_raw < 0 {
        return Err(DecodeError::NegativeCount { field: "attribute_count", value: attr_count_raw });
    }
    let total_payload: u64 = (input_count_raw as u64 + output_count_raw as u64 + attr_count_raw as u64)
        * 4;
    if total_payload > (data.len() - offset) as u64 {
        return Err(DecodeError::UnexpectedEndOfOperators { op_index: op_idx });
    }
    let input_count = input_count_raw as usize;
    let output_count = output_count_raw as usize;
    let attr_count = attr_count_raw as usize;

    let mut inputs: Vec<RegRef> = Vec::new();
    let mut j: usize = 0;
    while j < input_count
        invariant
            d == data@,
            base + 4 * (input_count + output_count + attr_count) <= d.len(),
            j <= input_count,
            offset == base + 4 * j,
            spec_inputs(d, register_count, base as int, j as nat, op_idx) == Ok::<_, DecodeError>(inputs@),
        decreases input_count - j,
    {
        let raw = read_i32(data, offset);
        offset = offset + 4;
        match decode_reg_ref(raw, register_count) {
            Some(reg) => {
                inputs.push(reg);
            },
            None => {
                proof {
                    lemma_inputs_err(d, register_count, base as int, (j + 1) as nat, input_count as nat, op_idx);
                }
                return Err(DecodeError::InvalidRegister { value: raw, op_index: Some(op_idx) });
            },
        }
        j = j + 1;
    }

    let out_base = offset;
    let mut outputs: Vec<RegRef> = Vec::new();
    let mut j: usize = 0;
    while j < output_count
        invariant
            d == data@,
            base + 4 * (input_count + output_count + attr_count) <= d.len(),
            out_base == base + 4 * input_count,
            j <= output_count,
            offset == out_base + 4 * j,
            spec_outputs(d, register_count, out_base as int, j as nat, op_idx) == Ok::<_, DecodeError>(outputs@),
        decreases output_count - j,
    {
        let raw = read_i32(data, offset);
        offset = offset + 4;
        if raw < 0 || raw >= register_count as i32 {
            proof {
                lemma_outputs_err(d, register_count, out_base as int, (j + 1) as nat, output_count as nat, op_idx);
            }
            return Err(DecodeError::OutputNotTemporary { value: raw, op_index: op_idx });
        }
        outputs.push(RegRef::Temp(raw as u32));
        j = j + 1;
    }

    let attr_base = offset;
    let mut attributes: Vec<i32> = Vec::new();
    let mut j: usize = 0;
    while j < attr_count
        invariant
            d == data@,
            base + 4 * (input_count + output_count + attr_count) <= d.len(),
            attr_base == base + 4 * (input_count + output_count),
            j <= attr_count,
            offset == attr_base + 4 * j,
            attributes@ =~= spec_attributes(d, attr_base as int, j as nat),
        decreases attr_count - j,
    {
        let raw = read_i32(data, offset);
        offset = offset + 4;
        attributes.push(raw);
        j = j + 1;
    }
    let op = DynOp { op_type, inputs, outputs, attributes };
    Ok((op, offset))
}

/// Decode a dynamic equation bytecode blob into a [`DynamicEquation`].
///
/// This validates the bytecode structure, register references, and opcodes.
/// Returns an error if the bytecode is malformed.
#[verifier::loop_isolation(false)]
pub fn decode(data: &[u8]) -> (res: Result<DynamicEquation, DecodeError>)
    ensures
        match res {
            Ok(eq) => spec_decode(data@) == Ok::<_, DecodeError>(eq@),
            Err(e) => spec_decode(data@) == Err::<SpecDynamicEquation, DecodeError>(e),
        },
{
    let ghost d = data@;
    if data.len() < 32 {
        return Err(DecodeError::HeaderTooShort { len: data.len() });
    }
    let version = read_i32(data, 0);
    let phase_raw = read_i32(data, 4);
    let register_count_raw = read_i32(data, 8);
    let operator_count_raw = read_i32(data, 12);

    let phase = match phase_raw {
        0 => RunningPhase::Global,
        1 => RunningPhase::Local,
        _ => {
            return Err(DecodeError::InvalidPhase { value: phase_raw });
        },
    };
    if register_count_raw < 0 {
        return Err(DecodeError::NegativeCount { field: "register_count", value: register_count_raw });
    }
    let register_count = register_count_raw as u32;
    if operator_count_raw < 0 {
        return Err(DecodeError::NegativeCount { field: "operator_count", value: operator_count_raw });
    }
    let operator_count = operator_count_raw as usize;

    let r0 = read_i32(data, 16);
    let v0 = match decode_reg_ref(r0, register_count) {
        Some(r) => r,
        None => {
            return Err(DecodeError::InvalidRegister { value: r0, op_index: None });
        },
    };
    let r1 = read_i32(data, 20);
    let v1 = match decode_reg_ref(r1, register_count) {
        Some(r) => r,
        None => {
            return Err(DecodeError::InvalidRegister { value: r1, op_index: None });
        },
    };
    let r2 = read_i32(data, 24);
    let v2 = match decode_reg_ref(r2, register_count) {
        Some(r) => r,
        None => {
            return Err(DecodeError::InvalidRegister { value: r2, op_index: None });
        },
    };
    let r3 = read_i32(data, 28);
    let v3 = match decode_reg_ref(r3, register_count) {
        Some(r) => r,
        None => {
            return Err(DecodeError::InvalidRegister { value: r3, op_index: None });
        },
    };
    let output_registers = Quad { v0, v1, v2, v3 };

    let mut offset: usize = 32;
    let mut operations: Vec<DynOp> = Vec::new();
    let mut op_idx: usize = 0;
    assert(operations@.map_values(|op: DynOp| op@) =~= Seq::<SpecDynOp>::empty());
    while op_idx < operator_count
        invariant
            d == data@,
            32 <= offset <= d.len(),
            op_idx <= operator_count,
            spec_ops(d, register_count, op_idx as nat) == Ok::<_, DecodeError>(
                (operations@.map_values(|op: DynOp| op@), offset as int),
            ),
        decreases operator_count - op_idx,
    {
        match decode_op(data, register_count, offset, op_idx) {
            Ok((op, next)) => {
                proof {
                    lemma_ops_in_bounds(d, register_count, (op_idx + 1) as nat);
                }
                let ghost before = operations@;
                operations.push(op);
                assert(operations@.map_values(|op: DynOp| op@) =~= before.map_values(|op: DynOp| op@).push(op@));
                offset = next;
            },
            Err(e) => {
                proof {
                    assert(spec_ops(d, register_count, (op_idx + 1) as nat) == Err::<
                        (Seq<SpecDynOp>, int),
                        DecodeError,
                    >(e));
                    lemma_ops_err(d, register_count, (op_idx + 1) as nat, operator_count as nat);
                }
                return Err(e);
            },
        }
        op_idx = op_idx + 1;
    }
    if offset != data.len() {
        return Err(DecodeError::TrailingBytes { remaining: data.len() - offset });
    }
    Ok(DynamicEquation { version, phase, register_count, output_registers, operations })
}

/// One xorshift step (shifts 13, 17, 5) on a 32-bit state.
pub open spec fn xorshift32(s: u32) -> u32 {
    let a = s ^ (s << 13u32);
    let b = a ^ (a >> 17u32);
    b ^ (b << 5u32)
}

/// Law: the xorshift step maps a nonzero state to a nonzero state, so a
/// generator that starts from a nonzero state never reaches the fixed point 0.
pub proof fn lemma_xorshift_nonzero(s: u32)
    requires
        s != 0,
    ensures
        xorshift32(s) != 0,
{
    assert(s != 0 ==> (s ^ (s << 13u32)) != 0) by (bit_vector);
    let a = s ^ (s << 13u32);
    assert(a != 0 ==> (a ^ (a >> 17u32)) != 0) by (bit_vector);
    let b = a ^ (a >> 17u32);
    assert(b != 0 ==> (b ^ (b << 5u32)) != 0) by (bit_vector);
}

/// A small xorshift random source for evaluating equations.
pub struct SimpleRand {
    state: u32,
}

impl SimpleRand {
    /// The state is never 0, the fixed point of the xorshift step.
    #[verifier::type_invariant]
    spec fn state_nonzero(&self) -> bool {
        self.state != 0
    }

    /// The current state.
    pub closed spec fn state(&self) -> u32 {
        self.state
    }

    /// Create a new random provider with the given seed (a zero seed becomes `1`).
    pub fn new(seed: u32) -> (r: Self)
        ensures
            r.state() == (if seed == 0 { 1u32 } else { seed }),
            r.state() != 0,
    {
        SimpleRand { state: if seed == 0 { 1 } else { seed } }
    }

    /// Advance the state by one xorshift step and return the new state.
    pub fn next_u32(&mut self) -> (v: u32)
        ensures
            v == xorshift32(old(self).state()),
            final(self).state() == v,
            v != 0,
    {
        proof {
            use_type_invariant(&*self);
            lemma_xorshift_nonzero(self.state);
        }
        let mut s = self.state;
        s = s ^ (s << 13u32);
        s = s ^ (s >> 17u32);
        s = s ^ (s << 5u32);
        self.state = s;
        s
    }
}

/// The xorshift step applied to a seed's bit pattern (a zero pattern becomes `1`).
pub fn seeded_u32(seed_bits: u32) -> (v: u32)
    ensures
        v == xorshift32(if seed_bits == 0 { 1u32 } else { seed_bits }),
{
    let mut s: u32 = if seed_bits == 0 { 1 } else { seed_bits };
    s = s ^ (s << 13u32);
    s = s ^ (s >> 17u32);
    s = s ^ (s << 5u32);
    s
}

// ---------------------------------------------------------------- laws

/// The Effekseer opcode of each operator: the constant 0; add, subtract,
/// multiply, divide, modulo 1 to 5; unary plus and minus 11 and 12; sine 21,
/// cosine 22; random 31, seeded random 32; step 50.
pub open spec fn dyn_op_code(t: DynOpType) -> i32 {
    match t {
        DynOpType::Constant => 0,
        DynOpType::Add => 1,
        DynOpType::Sub => 2,
        DynOpType::Mul => 3,
        DynOpType::Div => 4,
        DynOpType::Mod => 5,
        DynOpType::UnaryAdd => 11,
        DynOpType::UnarySub => 12,
        DynOpType::Sine => 21,
        DynOpType::Cos => 22,
        DynOpType::Rand => 31,
        DynOpType::RandWithSeed => 32,
        DynOpType::Step => 50,
    }
}

/// Law: decoding an opcode gives the operator with that code, and every
/// operator's code decodes back to it; no other value decodes.
pub proof fn lemma_opcode_round_trip(value: i32, t: DynOpType)
    ensures
        spec_decode_op_type(value) matches Some(u) ==> dyn_op_code(u) == value,
        spec_decode_op_type(dyn_op_code(t)) == Some(t),
{
}

/// Where operator `i` starts: operators follow the 32-byte header one after
/// another, each a 16-byte head (opcode and three counts) then that many
/// input, output and attribute words.
pub open spec fn op_start(d: Seq<u8>, i: nat) -> int
    decreases i,
{
    if i == 0 {
        32
    } else {
        let s = op_start(d, (i - 1) as nat);
        s + 16 + 4 * (i32_at(d, s + 4) + i32_at(d, s + 8) + i32_at(d, s + 12))
    }
}

/// The operators that decode start where [`op_start`] says, and each has the
/// operator type its opcode word names.
proof fn lemma_ops_opcodes(d: Seq<u8>, rc: u32, n: nat)
    requires
        spec_ops(d, rc, n) is Ok,
    ensures
        spec_ops(d, rc, n)->Ok_0.1 == op_start(d, n),
        spec_ops(d, rc, n)->Ok_0.0.len() == n,
        forall|i: int| 0 <= i < n ==> dyn_op_code((#[trigger] spec_ops(d, rc, n)->Ok_0.0[i]).op_type) == i32_at(
            d,
            op_start(d, i as nat),
        ),
    decreases n,
{
    if n > 0 {
        lemma_ops_opcodes(d, rc, (n - 1) as nat);
        let (ops, off) = spec_ops(d, rc, (n - 1) as nat)->Ok_0;
        reveal(spec_op);
        lemma_opcode_round_trip(i32_at(d, off), DynOpType::Constant);
    }
}

/// Law: in a decoded equation, operator `i` has the operator type that the
/// opcode word at its start in the bytecode names (its start found by walking
/// the operator heads from the end of the header).
pub proof fn lemma_decoded_opcodes(d: Seq<u8>)
    requires
        spec_decode(d) is Ok,
    ensures
        forall|i: int| 0 <= i < spec_decode(d)->Ok_0.operations.len()
            ==> dyn_op_code((#[trigger] spec_decode(d)->Ok_0.operations[i]).op_type) == i32_at(d, op_start(d, i as nat)),
{
    lemma_ops_opcodes(d, i32_at(d, 8) as u32, i32_at(d, 12) as nat);
}

/// A register reference that an equation with `register_count` temporaries can
/// use: a temporary below the count, one of the four externals, the global
/// time, or one of the five locals.
pub open spec fn valid_reg(r: RegRef, register_count: u32) -> bool {
    match r {
        RegRef::Temp(i) => i < register_count,
        RegRef::External(i) => i < 4,
        RegRef::Global(i) => i == 0,
        RegRef::Local(i) => i < 5,
    }
}

/// Whether a register reference is a temporary below `register_count`.
pub open spec fn is_temp_below(r: RegRef, register_count: u32) -> bool {
    match r {
        RegRef::Temp(t) => t < register_count,
        _ => false,
    }
}

/// Every reference that a raw index decodes to is usable.
proof fn lemma_decoded_reg_valid(value: i32, rc: u32)
    requires
        spec_decode_reg_ref(value, rc) is Some,
    ensures
        valid_reg(spec_decode_reg_ref(value, rc)->0, rc),
{
}

/// The inputs of an operator are usable references.
proof fn lemma_inputs_valid(d: Seq<u8>, rc: u32, off: int, k: nat, idx: usize)
    requires
        spec_inputs(d, rc, off, k, idx) is Ok,
    ensures
        forall|i: int| 0 <= i < spec_inputs(d, rc, off, k, idx)->Ok_0.len()
            ==> valid_reg(#[trigger] spec_inputs(d, rc, off, k, idx)->Ok_0[i], rc),
    decreases k,
{
    if k > 0 {
        lemma_inputs_valid(d, rc, off, (k - 1) as nat, idx);
        lemma_decoded_reg_valid(i32_at(d, off + 4 * (k - 1)), rc);
    }
}

/// The outputs of an operator are temporaries below the register count.
proof fn lemma_outputs_temp(d: Seq<u8>, rc: u32, off: int, k: nat, idx: usize)
    requires
        spec_outputs(d, rc, off, k, idx) is Ok,
    ensures
        forall|i: int| 0 <= i < spec_outputs(d, rc, off, k, idx)->Ok_0.len()
            ==> is_temp_below(#[trigger] spec_outputs(d, rc, off, k, idx)->Ok_0[i], rc),
    decreases k,
{
    if k > 0 {
        lemma_outputs_temp(d, rc, off, (k - 1) as nat, idx);
    }
}

/// Whether an operator reads only usable references and writes only to
/// temporaries below the register count.
pub open spec fn op_well_formed(op: SpecDynOp, rc: u32) -> bool {
    &&& forall|i: int| 0 <= i < op.inputs.len() ==> valid_reg(#[trigger] op.inputs[i], rc)
    &&& forall|i: int| 0 <= i < op.outputs.len() ==> is_temp_below(#[trigger] op.outputs[i], rc)
}

/// Every decoded operator is well formed.
proof fn lemma_ops_well_formed(d: Seq<u8>, rc: u32, n: nat)
    requires
        spec_ops(d, rc, n) is Ok,
    ensures
        forall|i: int| 0 <= i < spec_ops(d, rc, n)->Ok_0.0.len()
            ==> op_well_formed(#[trigger] spec_ops(d, rc, n)->Ok_0.0[i], rc),
    decreases n,
{
    if n > 0 {
        lemma_ops_well_formed(d, rc, (n - 1) as nat);
        let (ops, off) = spec_ops(d, rc, (n - 1) as nat)->Ok_0;
        reveal(spec_op);
        let t = i32_at(d, off);
        let ic = i32_at(d, off + 4);
        let oc = i32_at(d, off + 8);
        let base = off + 16;
        lemma_inputs_valid(d, rc, base, ic as nat, (n - 1) as usize);
        lemma_outputs_temp(d, rc, base + 4 * ic, oc as nat, (n - 1) as usize);
    }
}

/// Law: a decoded equation is well formed. Its four output registers are usable
/// references, every operator reads only usable references, and every operator
/// writes only to temporaries below the equation's register count.
pub proof fn lemma_decoded_equation_well_formed(d: Seq<u8>)
    requires
        spec_decode(d) is Ok,
    ensures
        ({
            let eq = spec_decode(d)->Ok_0;
            &&& valid_reg(eq.output_registers.v0, eq.register_count)
            &&& valid_reg(eq.output_registers.v1, eq.register_count)
            &&& valid_reg(eq.output_registers.v2, eq.register_count)
            &&& valid_reg(eq.output_registers.v3, eq.register_count)
            &&& forall|i: int| 0 <= i < eq.operations.len()
                ==> op_well_formed(#[trigger] eq.operations[i], eq.register_count)
        }),
{
    let rc = i32_at(d, 8) as u32;
    lemma_decoded_reg_valid(i32_at(d, 16), rc);
    lemma_decoded_reg_valid(i32_at(d, 20), rc);
    lemma_decoded_reg_valid(i32_at(d, 24), rc);
    lemma_decoded_reg_valid(i32_at(d, 28), rc);
    lemma_ops_well_formed(d, rc, i32_at(d, 12) as nat);
}

} // verus!
