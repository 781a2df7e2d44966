use rand::rngs::SmallRng;
use rand::{Rng, SeedableRng};
use wasm_mutate::encoder::Instr;
use wasm_mutate::error::{EitherType, Error};
use wasm_mutate::locals::read_locals;
use wasm_mutate::types::ValType;
use wasm_mutate::unfold_constant::{Operator, Range, UnfoldConstant};

// (func (result i32) (local i32 i32) i32.const 42 i32.const 100 i32.add)
fn body() -> (Vec<u8>, Vec<(Operator, usize)>) {
    let stream = vec![0x01, 0x02, 0x7f, 0x41, 0x2a, 0x41, 0xe4, 0x00, 0x6a, 0x0b];
    let operators = vec![
        (Operator::I32Const { value: 42 }, 3),
        (Operator::I32Const { value: 100 }, 5),
        (Operator::Other("I32Add".to_string()), 8),
        (Operator::Other("End".to_string()), 9),
    ];
    (stream, operators)
}

const RANGE: Range = Range { start: 3, end: 10 };

#[test]
fn test_unfold() {
    let (stream, operators) = body();
    let mutator = UnfoldConstant;
    let mut rnd = SmallRng::seed_from_u64(0);
    let b = mutator
        .mutate(&mut rnd, 0, operators, &stream, 0, RANGE, &stream)
        .unwrap();
    assert_eq!(b.locals, vec![(2, ValType::I32)]);
    assert!(b.prefix.is_empty());
    assert_eq!(
        b.instrs,
        vec![
            Instr::I32Const(1081994402),
            Instr::I32Const(-1081994360),
            Instr::I32Add
        ]
    );
    assert_eq!(b.suffix, vec![0x41, 0xe4, 0x00, 0x6a, 0x0b]);
}

#[test]
fn unfold_second_constant() {
    let (stream, operators) = body();
    let mut rnd = SmallRng::seed_from_u64(3);
    let b = UnfoldConstant
        .mutate(&mut rnd, 1, operators, &stream, 0, RANGE, &stream)
        .unwrap();
    assert_eq!(b.locals, vec![(2, ValType::I32)]);
    assert_eq!(b.prefix, vec![0x41, 0x2a]);
    assert_eq!(b.suffix, vec![0x6a, 0x0b]);
    match (b.instrs[0], b.instrs[1], b.instrs[2]) {
        (Instr::I32Const(r), Instr::I32Const(c), Instr::I32Add) => {
            assert_eq!(r.wrapping_add(c), 100)
        }
        _ => panic!("not an unfolding"),
    }
}

#[test]
fn unfold_i64_constant() {
    let mut out = vec![Instr::Drop];
    let mut rnd = SmallRng::seed_from_u64(9);
    let r = UnfoldConstant.unfold(&mut out, Operator::I64Const { value: i64::MIN }, &mut rnd);
    assert_eq!(r, Ok(()));
    assert_eq!(out.len(), 4);
    assert_eq!(out[0], Instr::Drop);
    match (out[1], out[2], out[3]) {
        (Instr::I64Const(r), Instr::I64Const(c), Instr::I64Add) => {
            assert_eq!(r.wrapping_add(c), i64::MIN)
        }
        _ => panic!("not an unfolding"),
    }
}

#[test]
fn unfold_refuses_other_operators() {
    let mut out = vec![];
    let mut rnd = SmallRng::seed_from_u64(0);
    let r = UnfoldConstant.unfold(&mut out, Operator::Other("I32Add".to_string()), &mut rnd);
    assert_eq!(r, Err(Error::UnsupportedType(EitherType::Operator("I32Add".to_string()))));
    assert!(out.is_empty());
    let (stream, operators) = body();
    let r = UnfoldConstant.mutate(&mut rnd, 2, operators, &stream, 0, RANGE, &stream);
    assert!(matches!(r, Err(Error::UnsupportedType(EitherType::Operator(_)))));
}

#[test]
fn unfolding_the_last_operator_copies_it_again() {
    let stream = vec![0x00, 0x41, 0x07, 0x0b];
    let operators = vec![(Operator::I32Const { value: 7 }, 1)];
    let mut rnd = SmallRng::seed_from_u64(0);
    let b = UnfoldConstant
        .mutate(&mut rnd, 0, operators, &stream, 0, Range { start: 1, end: 4 }, &stream)
        .unwrap();
    assert!(b.locals.is_empty());
    assert!(b.prefix.is_empty());
    assert_eq!(b.suffix, vec![0x41, 0x07, 0x0b]);
}

#[test]
fn index_past_the_operators() {
    let (stream, operators) = body();
    let mut rnd = SmallRng::seed_from_u64(0);
    let b = UnfoldConstant
        .mutate(&mut rnd, 10, operators, &stream, 0, RANGE, &stream)
        .unwrap();
    assert!(b.prefix.is_empty() && b.instrs.is_empty());
    assert_eq!(b.suffix, vec![0x0b]);
}

#[test]
fn can_mutate_constants_only() {
    let (_, operators) = body();
    let m = UnfoldConstant;
    assert_eq!(m.can_mutate(&operators, 0), Ok(true));
    assert_eq!(m.can_mutate(&operators, 1), Ok(true));
    assert_eq!(m.can_mutate(&operators, 2), Ok(false));
    assert!(m.is_constant(&Operator::I64Const { value: 0 }));
    assert!(!m.is_constant(&Operator::Other("Nop".to_string())));
}

#[test]
fn locals_of_several_types() {
    // two groups: 1 x i64, 3 x f64, then i32.const 5
    let stream = vec![0x02, 0x01, 0x7e, 0x03, 0x7c, 0x41, 0x05, 0x0b];
    let operators = vec![(Operator::I32Const { value: 5 }, 5), (Operator::Other("End".to_string()), 7)];
    let mut rnd = SmallRng::seed_from_u64(0);
    let b = UnfoldConstant
        .mutate(&mut rnd, 0, operators, &stream, 100, Range { start: 5, end: 8 }, &stream)
        .unwrap();
    assert_eq!(b.locals, vec![(1, ValType::I64), (3, ValType::F64)]);
    assert_eq!(b.suffix, vec![0x0b]);
}

#[test]
fn locals_that_cannot_be_read() {
    let mut rnd = SmallRng::seed_from_u64(0);
    let ops = || vec![(Operator::I32Const { value: 5 }, 3)];
    // exnref is no value type of a local
    let stream = vec![0x01, 0x01, 0x68, 0x41, 0x05, 0x0b];
    let r = UnfoldConstant.mutate(&mut rnd, 0, ops(), &stream, 0, Range { start: 3, end: 6 }, &stream);
    assert!(matches!(r, Err(Error::UnsupportedType(EitherType::ValueType(0x68)))));
    // an invalid type code
    let stream = vec![0x01, 0x01, 0x55, 0x41, 0x05, 0x0b];
    let r = UnfoldConstant.mutate(&mut rnd, 0, ops(), &stream, 7, Range { start: 3, end: 6 }, &stream);
    match r {
        Err(Error::Parse { message, offset }) => {
            assert_eq!(message, "Invalid type");
            assert_eq!(offset, 9);
        }
        _ => panic!("expected a parse error"),
    }
    // a truncated group
    let stream = vec![0x01, 0x81];
    let r = UnfoldConstant.mutate(&mut rnd, 0, vec![], &stream, 0, Range { start: 2, end: 2 }, &stream);
    assert!(matches!(r, Err(Error::Parse { .. })));
    // no count at all: not accepted
    let r = UnfoldConstant.try_mutate(&mut rnd, 0, ops(), &[], 0, Range { start: 0, end: 0 }, &[]);
    assert!(r.is_none());
    // cuts outside the stream: not accepted
    let stream = vec![0x00, 0x41, 0x05, 0x0b];
    let r = UnfoldConstant.try_mutate(&mut rnd, 0, vec![(Operator::I32Const { value: 5 }, 1)], &stream, 0, Range { start: 1, end: 9 }, &stream);
    assert!(r.is_none());
}

#[test]
fn refusing_an_operator_leaves_the_generator() {
    let mut out = vec![Instr::Drop];
    let mut rnd = SmallRng::seed_from_u64(21);
    let r = UnfoldConstant.unfold(&mut out, Operator::Other("F32Const".to_string()), &mut rnd);
    assert_eq!(r, Err(Error::UnsupportedType(EitherType::Operator("F32Const".to_string()))));
    assert_eq!(out, vec![Instr::Drop]);
    let mut fresh = SmallRng::seed_from_u64(21);
    assert_eq!(rnd.gen::<u64>(), fresh.gen::<u64>());
}

#[test]
fn locals_with_multibyte_counts() {
    // one group of 128 i32 locals: the count takes two bytes
    assert_eq!(read_locals(&[0x01, 0x80, 0x01, 0x7f], 0), Some(Ok(vec![(128, ValType::I32)])));
    // the largest count, in five bytes
    assert_eq!(
        read_locals(&[0x01, 0xff, 0xff, 0xff, 0xff, 0x0f, 0x7e], 40),
        Some(Ok(vec![(u32::MAX, ValType::I64)]))
    );
    // a fifth byte that does not fit in 32 bits
    match read_locals(&[0x01, 0xff, 0xff, 0xff, 0xff, 0x10, 0x7f], 0) {
        Some(Err(Error::Parse { message, offset })) => {
            assert_eq!(message, "Invalid var_u32");
            assert_eq!(offset, 5);
        }
        r => panic!("expected a parse error, got {:?}", r),
    }
    // the number of groups itself cannot be read
    assert_eq!(read_locals(&[0x80], 0), None);
    assert_eq!(read_locals(&[], 0), None);
    // no groups
    assert_eq!(read_locals(&[0x00, 0x0b], 0), Some(Ok(vec![])));
}
