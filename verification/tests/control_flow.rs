#![allow(dead_code)]

use closure_ir::{call, Block, Closure, Datum, Expr, Statement, TypeInfo, Value};

const FUEL: u64 = 10_000;

fn bx(e: Expr) -> Box<Expr> {
    Box::new(e)
}

fn arg(index: usize) -> Expr {
    Expr::Argument(index)
}

fn lit(value: Value) -> Expr {
    Expr::Constant(value)
}

fn i32c(value: i32) -> Expr {
    Expr::Constant(Value::I32(value))
}

fn plus(lhs: Expr, rhs: Expr) -> Expr {
    Expr::Add { lhs: bx(lhs), rhs: bx(rhs) }
}

fn minus(lhs: Expr, rhs: Expr) -> Expr {
    Expr::Sub { lhs: bx(lhs), rhs: bx(rhs) }
}

fn times(lhs: Expr, rhs: Expr) -> Expr {
    Expr::Mul { lhs: bx(lhs), rhs: bx(rhs) }
}

fn greater(lhs: Expr, rhs: Expr) -> Expr {
    Expr::Gt { lhs: bx(lhs), rhs: bx(rhs) }
}

fn greater_eq(lhs: Expr, rhs: Expr) -> Expr {
    Expr::Ge { lhs: bx(lhs), rhs: bx(rhs) }
}

fn less(lhs: Expr, rhs: Expr) -> Expr {
    Expr::Lt { lhs: bx(lhs), rhs: bx(rhs) }
}

fn less_eq(lhs: Expr, rhs: Expr) -> Expr {
    Expr::Le { lhs: bx(lhs), rhs: bx(rhs) }
}

fn equal(lhs: Expr, rhs: Expr) -> Expr {
    Expr::Eq { lhs: bx(lhs), rhs: bx(rhs) }
}

fn both(lhs: Expr, rhs: Expr) -> Expr {
    Expr::And { lhs: bx(lhs), rhs: bx(rhs) }
}

fn if_else(condition: Expr, then_branch: Expr, else_branch: Expr) -> Expr {
    Expr::IfElse { condition: bx(condition), then_branch: bx(then_branch), else_branch: bx(else_branch) }
}

fn let_local(local: usize, type_info: TypeInfo, value: Expr) -> Statement {
    Statement::Let { local, type_info, value, mutable: false }
}

fn let_mut(local: usize, type_info: TypeInfo, value: Expr) -> Statement {
    Statement::Let { local, type_info, value, mutable: true }
}

fn assign(local: usize, value: Expr) -> Statement {
    Statement::Assign { local, value }
}

fn block(statements: Vec<Statement>, result: Expr) -> Block {
    Block { statements, result: Some(result) }
}

fn closure(arguments: Vec<TypeInfo>, return_type: TypeInfo, body: Block) -> Closure {
    Closure { captures: vec![], arguments, return_type, body, external_functions: vec![] }
}

fn lambda(arguments: Vec<TypeInfo>, return_type: TypeInfo, body: Expr) -> Closure {
    closure(arguments, return_type, Block::expression(body))
}

/// Lowers `closure` to LLVM, which must succeed for every closure these
/// scenarios run, then runs it on the reference semantics.
fn run(compiled: &Closure, arguments: Vec<Value>) -> Value {
    let context = inkwell::context::Context::create();
    let lowered = closure_ir::compiler::Compiler::new(&context).compile(compiled);
    assert!(lowered.is_ok(), "the closure lowers to LLVM: {:?}", lowered.err());
    let arguments = arguments.into_iter().map(Datum::Scalar).collect();
    let outcome = call(compiled, &vec![], arguments, FUEL).expect("the closure runs");
    match outcome.result {
        Some(Datum::Scalar(value)) => value,
        other => panic!("unexpected result {:?}", other),
    }
}

fn run_i32(compiled: &Closure, arguments: Vec<i32>) -> i32 {
    match run(compiled, arguments.into_iter().map(Value::I32).collect()) {
        Value::I32(value) => value,
        other => panic!("unexpected result {:?}", other),
    }
}

fn run_bool(compiled: &Closure, arguments: Vec<i32>) -> bool {
    match run(compiled, arguments.into_iter().map(Value::I32).collect()) {
        Value::Bool(value) => value,
        other => panic!("unexpected result {:?}", other),
    }
}

#[test]
fn control_flow_test_compound_comparison() {
    // |x: i32| -> bool { x > 10 && x < 20 }
    let compiled = lambda(
        vec![TypeInfo::I32],
        TypeInfo::Bool,
        both(greater(arg(0), i32c(10)), less(arg(0), i32c(20))),
    );
    assert!(!run_bool(&compiled, vec![5]));
    assert!(run_bool(&compiled, vec![15]));
    assert!(!run_bool(&compiled, vec![25]));
}

#[test]
fn control_flow_test_compound_if_condition() {
    // |x: i32| -> i32 { if x >= 10 && x <= 20 { 1 } else { 0 } }
    let compiled = lambda(
        vec![TypeInfo::I32],
        TypeInfo::I32,
        if_else(both(greater_eq(arg(0), i32c(10)), less_eq(arg(0), i32c(20))), i32c(1), i32c(0)),
    );
    assert_eq!(run_i32(&compiled, vec![5]), 0);
    assert_eq!(run_i32(&compiled, vec![10]), 1);
    assert_eq!(run_i32(&compiled, vec![15]), 1);
    assert_eq!(run_i32(&compiled, vec![20]), 1);
    assert_eq!(run_i32(&compiled, vec![25]), 0);
}

#[test]
fn control_flow_test_if_else_true() {
    // |x: i32| -> i32 { if x > 10 { 100 } else { 200 } }
    let compiled = lambda(vec![TypeInfo::I32], TypeInfo::I32, if_else(greater(arg(0), i32c(10)), i32c(100), i32c(200)));
    assert_eq!(run_i32(&compiled, vec![20]), 100);
}

#[test]
fn control_flow_test_if_else_false() {
    // |x: i32| -> i32 { if x > 10 { 100 } else { 200 } }
    let compiled = lambda(vec![TypeInfo::I32], TypeInfo::I32, if_else(greater(arg(0), i32c(10)), i32c(100), i32c(200)));
    assert_eq!(run_i32(&compiled, vec![5]), 200);
}

#[test]
fn control_flow_test_if_else_argument() {
    // |x: i32| -> i32 { if x > 0 { x + 10 } else { x - 10 } }
    let compiled = lambda(
        vec![TypeInfo::I32],
        TypeInfo::I32,
        if_else(greater(arg(0), i32c(0)), plus(arg(0), i32c(10)), minus(arg(0), i32c(10))),
    );
    assert_eq!(run_i32(&compiled, vec![5]), 15);
    assert_eq!(run_i32(&compiled, vec![-5]), -15);
}

#[test]
fn control_flow_test_if_else_equal() {
    // |x: i32| -> i32 { if x == 10 { 1 } else { 0 } }
    let compiled = lambda(vec![TypeInfo::I32], TypeInfo::I32, if_else(equal(arg(0), i32c(10)), i32c(1), i32c(0)));
    assert_eq!(run_i32(&compiled, vec![10]), 1);
    assert_eq!(run_i32(&compiled, vec![11]), 0);
}

#[test]
fn control_flow_test_if_else_less_than() {
    // |x: i32| -> i32 { if x < 10 { 1 } else { 2 } }
    let compiled = lambda(vec![TypeInfo::I32], TypeInfo::I32, if_else(less(arg(0), i32c(10)), i32c(1), i32c(2)));
    assert_eq!(run_i32(&compiled, vec![5]), 1);
    assert_eq!(run_i32(&compiled, vec![15]), 2);
}

#[test]
fn control_flow_test_else_if() {
    // |x: i32| -> i32 { if x > 10 { 100 } else if x > 5 { 50 } else { 0 } }
    let compiled = lambda(
        vec![TypeInfo::I32],
        TypeInfo::I32,
        if_else(greater(arg(0), i32c(10)), i32c(100), if_else(greater(arg(0), i32c(5)), i32c(50), i32c(0))),
    );
    assert_eq!(run_i32(&compiled, vec![20]), 100);
    assert_eq!(run_i32(&compiled, vec![7]), 50);
    assert_eq!(run_i32(&compiled, vec![2]), 0);
}

#[test]
fn control_flow_test_nested_if_else() {
    // |x: i32| -> i32 { if x > 0 { if x > 10 { 100 } else { 50 } } else { 0 } }
    let compiled = lambda(
        vec![TypeInfo::I32],
        TypeInfo::I32,
        if_else(greater(arg(0), i32c(0)), if_else(greater(arg(0), i32c(10)), i32c(100), i32c(50)), i32c(0)),
    );
    assert_eq!(run_i32(&compiled, vec![20]), 100);
    assert_eq!(run_i32(&compiled, vec![5]), 50);
    assert_eq!(run_i32(&compiled, vec![-5]), 0);
}

#[test]
fn control_flow_test_if_else_u32() {
    // |x: u32| -> u32 { if x > 10 { 100 } else { 200 } }
    let compiled = lambda(
        vec![TypeInfo::U32],
        TypeInfo::U32,
        if_else(
            greater(arg(0), lit(Value::U32(10))),
            lit(Value::U32(100)),
            lit(Value::U32(200)),
        ),
    );
    assert_eq!(run(&compiled, vec![Value::U32(20)]), Value::U32(100));
    assert_eq!(run(&compiled, vec![Value::U32(5)]), Value::U32(200));
}

#[test]
fn control_flow_test_if_else_bool() {
    // |x: bool| -> i32 { if x { 1 } else { 0 } }
    let compiled = lambda(vec![TypeInfo::Bool], TypeInfo::I32, if_else(arg(0), i32c(1), i32c(0)));
    assert_eq!(run(&compiled, vec![Value::Bool(true)]), Value::I32(1));
    assert_eq!(run(&compiled, vec![Value::Bool(false)]), Value::I32(0));
}

#[test]
fn control_flow_test_if_else_arithmetic() {
    // |x: i32| -> i32 { if x > 10 { x * 2 + 5 } else { x * 3 - 5 } }
    let compiled = lambda(
        vec![TypeInfo::I32],
        TypeInfo::I32,
        if_else(
            greater(arg(0), i32c(10)),
            plus(times(arg(0), i32c(2)), i32c(5)),
            minus(times(arg(0), i32c(3)), i32c(5)),
        ),
    );
    assert_eq!(run_i32(&compiled, vec![20]), 45);
    assert_eq!(run_i32(&compiled, vec![5]), 10);
}

