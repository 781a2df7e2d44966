use wasm_mutate::analysis::{ClassData, PeepholeMutationAnalysis};
use wasm_mutate::error::Error;
use wasm_mutate::lang::Lang;
use wasm_mutate::types::{FuncInfo, PrimitiveTypeInfo, TypeInfo};

fn sample() -> PeepholeMutationAnalysis {
    PeepholeMutationAnalysis::new(
        vec![PrimitiveTypeInfo::F64, PrimitiveTypeInfo::I64],
        vec![PrimitiveTypeInfo::I32, PrimitiveTypeInfo::F32],
        vec![
            TypeInfo::Func(FuncInfo { params: vec![], returns: vec![] }),
            TypeInfo::Func(FuncInfo {
                params: vec![PrimitiveTypeInfo::I32, PrimitiveTypeInfo::I64],
                returns: vec![PrimitiveTypeInfo::F32],
            }),
            TypeInfo::Func(FuncInfo {
                params: vec![],
                returns: vec![PrimitiveTypeInfo::I32, PrimitiveTypeInfo::I32],
            }),
        ],
        vec![1, 0, 2],
    )
}

#[test]
fn fixed_types_of_operators() {
    let a = sample();
    let e: Vec<Lang> = vec![];
    assert_eq!(a.get_returning_tpe(&Lang::I32Add([0, 1]), &e), Ok(PrimitiveTypeInfo::I32));
    assert_eq!(a.get_returning_tpe(&Lang::I64Sub([0, 1]), &e), Ok(PrimitiveTypeInfo::I64));
    assert_eq!(a.get_returning_tpe(&Lang::I64Eqz([0]), &e), Ok(PrimitiveTypeInfo::I32));
    assert_eq!(a.get_returning_tpe(&Lang::I64LtU([0, 1]), &e), Ok(PrimitiveTypeInfo::I32));
    assert_eq!(a.get_returning_tpe(&Lang::F64Ge([0, 1]), &e), Ok(PrimitiveTypeInfo::I32));
    assert_eq!(a.get_returning_tpe(&Lang::F32Sqrt([0]), &e), Ok(PrimitiveTypeInfo::F32));
    assert_eq!(a.get_returning_tpe(&Lang::F64PromoteF32([0]), &e), Ok(PrimitiveTypeInfo::F64));
    assert_eq!(a.get_returning_tpe(&Lang::Wrap([0]), &e), Ok(PrimitiveTypeInfo::I32));
    assert_eq!(a.get_returning_tpe(&Lang::Const(3), &e), Ok(PrimitiveTypeInfo::I64));
    assert_eq!(a.get_returning_tpe(&Lang::Arg(3), &e), Ok(PrimitiveTypeInfo::I32));
    assert_eq!(a.get_returning_tpe(&Lang::Drop([0]), &e), Ok(PrimitiveTypeInfo::Empty));
    assert_eq!(a.get_returning_tpe(&Lang::I64Store32([0, 1, 2, 3, 4]), &e), Ok(PrimitiveTypeInfo::Empty));
    assert_eq!(a.get_returning_tpe(&Lang::MemoryGrow([0]), &e), Ok(PrimitiveTypeInfo::I32));
    assert_eq!(a.get_returning_tpe(&Lang::MemorySize([0]), &e), Ok(PrimitiveTypeInfo::I32));
    assert_eq!(a.get_returning_tpe(&Lang::RandI64, &e), Ok(PrimitiveTypeInfo::I64));
    assert_eq!(a.get_returning_tpe(&Lang::UnfoldI32(0), &e), Ok(PrimitiveTypeInfo::I32));
    assert_eq!(a.get_returning_tpe(&Lang::F32(0), &e), Ok(PrimitiveTypeInfo::F32));
    assert_eq!(a.get_returning_tpe(&Lang::I32TruncF64U([0]), &e), Ok(PrimitiveTypeInfo::I32));
}

#[test]
fn default_node_is_undef_of_no_type() {
    let a = sample();
    let l = Lang::default();
    assert_eq!(l, Lang::Undef);
    assert_eq!(a.get_returning_tpe(&l, &[]), Ok(PrimitiveTypeInfo::Empty));
}

#[test]
fn locals_and_globals() {
    let a = sample();
    let e = vec![Lang::Arg(1), Lang::Arg(0), Lang::Const(0)];
    assert_eq!(a.get_returning_tpe(&Lang::LocalGet([0]), &e), Ok(PrimitiveTypeInfo::F32));
    assert_eq!(a.get_returning_tpe(&Lang::LocalTee([1, 2]), &e), Ok(PrimitiveTypeInfo::I32));
    assert_eq!(a.get_returning_tpe(&Lang::GlobalGet([1]), &e), Ok(PrimitiveTypeInfo::F64));
    assert_eq!(a.get_returning_tpe(&Lang::GlobalGet([0]), &e), Ok(PrimitiveTypeInfo::I64));
    // Not an index node, or out of range: not accepted.
    assert_eq!(a.returning_tpe_checked(&Lang::LocalGet([2]), &e), None);
    assert_eq!(a.returning_tpe_checked(&Lang::LocalGet([7]), &e), None);
    assert_eq!(a.returning_tpe_checked(&Lang::LocalGet([0]), &[Lang::Arg(5)]), None);
    assert_eq!(a.returning_tpe_checked(&Lang::Select([0, 1, 2]), &e), None);
}

#[test]
fn calls() {
    let a = sample();
    // function 1 has type 0: no results
    let e = vec![Lang::Arg(1), Lang::Const(0), Lang::Const(2), Lang::Arg(9), Lang::I32(0)];
    assert_eq!(a.get_returning_tpe(&Lang::Call(vec![0]), &e), Ok(PrimitiveTypeInfo::Empty));
    // function 0 has type 1: one f32 result
    assert_eq!(a.get_returning_tpe(&Lang::Call(vec![1, 0]), &e), Ok(PrimitiveTypeInfo::F32));
    // function 2 has type 2: two results
    assert_eq!(a.get_returning_tpe(&Lang::Call(vec![2]), &e), Err(Error::NoMutationsApplicable));
    // function 9 does not exist; the callee must be an Arg or a Const
    assert_eq!(a.returning_tpe_checked(&Lang::Call(vec![3]), &e), None);
    assert_eq!(a.returning_tpe_checked(&Lang::Call(vec![4]), &e), None);
    assert_eq!(a.returning_tpe_checked(&Lang::Call(vec![]), &e), None);
}

#[test]
fn function_types() {
    let a = sample();
    match a.get_functype_idx(0) {
        TypeInfo::Func(f) => {
            assert_eq!(f.params, vec![PrimitiveTypeInfo::I32, PrimitiveTypeInfo::I64]);
            assert_eq!(f.returns, vec![PrimitiveTypeInfo::F32]);
        }
    }
    match a.get_functype_idx(1) {
        TypeInfo::Func(f) => assert!(f.params.is_empty() && f.returns.is_empty()),
    }
    assert!(a.functype_checked(3).is_none());
}

#[test]
fn make_records_nodes_in_order() {
    let mut a = sample();
    assert!(a.nodes().is_empty());
    let d = a.make(Lang::Arg(0));
    assert_eq!(d.map(|d| d.tpe), Some(PrimitiveTypeInfo::I32));
    let d = a.make(Lang::LocalGet([0]));
    assert_eq!(d.map(|d| d.tpe), Some(PrimitiveTypeInfo::I32));
    let d = a.make(Lang::F64Add([0, 1]));
    assert_eq!(d.map(|d| d.tpe), Some(PrimitiveTypeInfo::F64));
    assert_eq!(a.nodes(), &vec![Lang::Arg(0), Lang::LocalGet([0]), Lang::F64Add([0, 1])]);
    // A node whose type cannot be computed is still recorded.
    assert!(a.try_make(Lang::Select([0, 1, 2])).is_none());
    assert_eq!(a.nodes().len(), 4);
    // A local index that names the node itself, which is no Arg.
    assert!(a.try_make(Lang::LocalGet([4])).is_none());
}

#[test]
fn merge_keeps_existing_data() {
    let a = sample();
    let i32d = ClassData { tpe: PrimitiveTypeInfo::I32 };
    let i64d = ClassData { tpe: PrimitiveTypeInfo::I64 };
    let mut to = None;
    assert!(a.merge(&mut to, Some(i32d)));
    assert_eq!(to, Some(i32d));
    assert!(!a.merge(&mut to, Some(i64d)));
    assert_eq!(to, Some(i32d));
    assert!(!a.merge(&mut to, None));
    assert_eq!(to, Some(i32d));
    let mut none = None;
    assert!(!a.merge(&mut none, None));
    assert_eq!(none, None);
}

#[test]
fn class_data_equality() {
    let x = ClassData { tpe: PrimitiveTypeInfo::F32 };
    let y = ClassData { tpe: PrimitiveTypeInfo::F32 };
    let z = ClassData { tpe: PrimitiveTypeInfo::Empty };
    assert!(x == y);
    assert!(!(x != y));
    assert!(x != z);
    assert!(!(x == z));
}
