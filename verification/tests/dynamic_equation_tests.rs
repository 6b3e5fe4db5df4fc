use effekseer_reader::eval::dynamic_equation::{decode, seeded_u32, DecodeError, SimpleRand};
use effekseer_reader::types::dynamic_equation::{DynOpType, RegRef, RunningPhase};

fn build_bytecode(
    version: i32,
    phase: i32,
    register_count: i32,
    output_regs: [i32; 4],
    ops: &[(i32, &[i32], &[i32], &[i32])],
) -> Vec<u8> {
    let mut buf = Vec::new();
    let push_i32 = |buf: &mut Vec<u8>, v: i32| buf.extend_from_slice(&v.to_le_bytes());
    push_i32(&mut buf, version);
    push_i32(&mut buf, phase);
    push_i32(&mut buf, register_count);
    push_i32(&mut buf, ops.len() as i32);
    for &r in &output_regs {
        push_i32(&mut buf, r);
    }
    for &(op_type, inputs, outputs, attrs) in ops {
        push_i32(&mut buf, op_type);
        push_i32(&mut buf, inputs.len() as i32);
        push_i32(&mut buf, outputs.len() as i32);
        push_i32(&mut buf, attrs.len() as i32);
        for &v in inputs {
            push_i32(&mut buf, v);
        }
        for &v in outputs {
            push_i32(&mut buf, v);
        }
        for &v in attrs {
            push_i32(&mut buf, v);
        }
    }
    buf
}

fn float_bits(v: f32) -> i32 {
    i32::from_le_bytes(v.to_le_bytes())
}

#[test]
fn test_error_header_too_short() {
    let data = vec![0u8; 10];
    assert!(matches!(decode(&data), Err(DecodeError::HeaderTooShort { len: 10 })));
}

#[test]
fn test_error_invalid_phase() {
    let mut buf = Vec::new();
    let push = |buf: &mut Vec<u8>, v: i32| buf.extend_from_slice(&v.to_le_bytes());
    push(&mut buf, 0);
    push(&mut buf, 99);
    push(&mut buf, 1);
    push(&mut buf, 0);
    push(&mut buf, 0);
    push(&mut buf, 0);
    push(&mut buf, 0);
    push(&mut buf, 0);
    assert!(matches!(decode(&buf), Err(DecodeError::InvalidPhase { value: 99 })));
}

#[test]
fn test_error_invalid_opcode() {
    let data = build_bytecode(0, 0, 1, [0, 0, 0, 0], &[(999, &[], &[0], &[float_bits(1.0)])]);
    assert!(matches!(decode(&data), Err(DecodeError::InvalidOpcode { value: 999, op_index: 0 })));
}

#[test]
fn test_error_trailing_bytes() {
    let mut data = build_bytecode(0, 0, 1, [0, 0, 0, 0], &[]);
    data.extend_from_slice(&[0, 0, 0, 0]);
    assert!(matches!(decode(&data), Err(DecodeError::TrailingBytes { remaining: 4 })));
}

// ---- further cases

#[test]
fn decode_constant_fields() {
    let data = build_bytecode(0, 0, 1, [0, 0, 0, 0], &[(0, &[], &[0], &[float_bits(42.0)])]);
    let eq = decode(&data).unwrap();
    assert_eq!(eq.phase, RunningPhase::Global);
    assert_eq!(eq.register_count, 1);
    assert_eq!(eq.operations.len(), 1);
    assert_eq!(eq.operations[0].op_type, DynOpType::Constant);
    assert_eq!(eq.operations[0].attributes, vec![float_bits(42.0)]);
}

#[test]
fn decode_register_kinds() {
    let data = build_bytecode(0, 1, 2, [0, 1, 0, 1], &[(1, &[0x1000, 0x1100], &[0], &[])]);
    let eq = decode(&data).unwrap();
    assert_eq!(eq.phase, RunningPhase::Local);
    assert_eq!(eq.operations[0].inputs[0], RegRef::External(0));
    assert_eq!(eq.operations[0].inputs[1], RegRef::Global(0));
}

#[test]
fn decode_bad_register_and_short_ops() {
    let bad_out = build_bytecode(0, 0, 1, [5, 0, 0, 0], &[]);
    assert!(matches!(decode(&bad_out), Err(DecodeError::InvalidRegister { value: 5, op_index: None })));
    let mut short = build_bytecode(0, 0, 1, [0, 0, 0, 0], &[(0, &[], &[0], &[1])]);
    short.truncate(short.len() - 4);
    assert!(matches!(decode(&short), Err(DecodeError::UnexpectedEndOfOperators { op_index: 0 })));
}

#[test]
fn simple_rand_steps() {
    let mut r = SimpleRand::new(0);
    // Seed 0 becomes 1; one xorshift step of 1 is 270369.
    assert_eq!(r.next_u32(), 270369);
    assert_eq!(seeded_u32(0), 270369);
    assert_eq!(seeded_u32(1), 270369);
    let mut r2 = SimpleRand::new(270369);
    let mut r3 = SimpleRand::new(1);
    r3.next_u32();
    assert_eq!(r2.next_u32(), r3.next_u32());
}
