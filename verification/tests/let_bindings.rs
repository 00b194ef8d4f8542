#![allow(dead_code)]

use closure_ir::{call, Block, Closure, Datum, Expr, Statement, TypeInfo, Value};

const FUEL: u64 = 10_000;

fn bx(e: Expr) -> Box<Expr> {
    Box::new(e)
}

fn arg(index: usize) -> Expr {
    Expr::Argument(index)
}

fn lit(value: Value) -> Expr {
    Expr::Constant(value)
}

fn i32c(value: i32) -> Expr {
    Expr::Constant(Value::I32(value))
}

fn plus(lhs: Expr, rhs: Expr) -> Expr {
    Expr::Add { lhs: bx(lhs), rhs: bx(rhs) }
}

fn minus(lhs: Expr, rhs: Expr) -> Expr {
    Expr::Sub { lhs: bx(lhs), rhs: bx(rhs) }
}

fn times(lhs: Expr, rhs: Expr) -> Expr {
    Expr::Mul { lhs: bx(lhs), rhs: bx(rhs) }
}

fn greater(lhs: Expr, rhs: Expr) -> Expr {
    Expr::Gt { lhs: bx(lhs), rhs: bx(rhs) }
}

fn greater_eq(lhs: Expr, rhs: Expr) -> Expr {
    Expr::Ge { lhs: bx(lhs), rhs: bx(rhs) }
}

fn less(lhs: Expr, rhs: Expr) -> Expr {
    Expr::Lt { lhs: bx(lhs), rhs: bx(rhs) }
}

fn less_eq(lhs: Expr, rhs: Expr) -> Expr {
    Expr::Le { lhs: bx(lhs), rhs: bx(rhs) }
}

fn equal(lhs: Expr, rhs: Expr) -> Expr {
    Expr::Eq { lhs: bx(lhs), rhs: bx(rhs) }
}

fn both(lhs: Expr, rhs: Expr) -> Expr {
    Expr::And { lhs: bx(lhs), rhs: bx(rhs) }
}

fn if_else(condition: Expr, then_branch: Expr, else_branch: Expr) -> Expr {
    Expr::IfElse { condition: bx(condition), then_branch: bx(then_branch), else_branch: bx(else_branch) }
}

fn let_local(local: usize, type_info: TypeInfo, value: Expr) -> Statement {
    Statement::Let { local, type_info, value, mutable: false }
}

fn let_mut(local: usize, type_info: TypeInfo, value: Expr) -> Statement {
    Statement::Let { local, type_info, value, mutable: true }
}

fn assign(local: usize, value: Expr) -> Statement {
    Statement::Assign { local, value }
}

fn block(statements: Vec<Statement>, result: Expr) -> Block {
    Block { statements, result: Some(result) }
}

fn closure(arguments: Vec<TypeInfo>, return_type: TypeInfo, body: Block) -> Closure {
    Closure { captures: vec![], arguments, return_type, body, external_functions: vec![] }
}

fn lambda(arguments: Vec<TypeInfo>, return_type: TypeInfo, body: Expr) -> Closure {
    closure(arguments, return_type, Block::expression(body))
}

/// Lowers `closure` to LLVM, which must succeed for every closure these
/// scenarios run, then runs it on the reference semantics.
fn run(compiled: &Closure, arguments: Vec<Value>) -> Value {
    let context = inkwell::context::Context::create();
    let lowered = closure_ir::compiler::Compiler::new(&context).compile(compiled);
    assert!(lowered.is_ok(), "the closure lowers to LLVM: {:?}", lowered.err());
    let arguments = arguments.into_iter().map(Datum::Scalar).collect();
    let outcome = call(compiled, &vec![], arguments, FUEL).expect("the closure runs");
    match outcome.result {
        Some(Datum::Scalar(value)) => value,
        other => panic!("unexpected result {:?}", other),
    }
}

fn run_i32(compiled: &Closure, arguments: Vec<i32>) -> i32 {
    match run(compiled, arguments.into_iter().map(Value::I32).collect()) {
        Value::I32(value) => value,
        other => panic!("unexpected result {:?}", other),
    }
}

fn run_bool(compiled: &Closure, arguments: Vec<i32>) -> bool {
    match run(compiled, arguments.into_iter().map(Value::I32).collect()) {
        Value::Bool(value) => value,
        other => panic!("unexpected result {:?}", other),
    }
}

#[test]
fn let_test_let_binding() {
    // |x: i32| -> i32 { let y = x + 1; y * 2 }
    let compiled = closure(
        vec![TypeInfo::I32],
        TypeInfo::I32,
        block(vec![let_local(0, TypeInfo::I32, plus(arg(0), i32c(1)))], times(arg(1), i32c(2))),
    );
    assert_eq!(run_i32(&compiled, vec![4]), 10);
}

#[test]
fn let_test_multiple_let_bindings() {
    // |x: i32| -> i32 { let y = x + 1; let z = y * 2; z - 3 }
    let compiled = closure(
        vec![TypeInfo::I32],
        TypeInfo::I32,
        block(
            vec![
                let_local(0, TypeInfo::I32, plus(arg(0), i32c(1))),
                let_local(1, TypeInfo::I32, times(arg(1), i32c(2))),
            ],
            minus(arg(2), i32c(3)),
        ),
    );
    assert_eq!(run_i32(&compiled, vec![4]), 7);
}

#[test]
fn let_test_annotated_let_binding() {
    // |x: i32| -> i32 { let y: i32 = x + 1; y * 2 }
    let compiled = closure(
        vec![TypeInfo::I32],
        TypeInfo::I32,
        block(vec![let_local(0, TypeInfo::I32, plus(arg(0), i32c(1)))], times(arg(1), i32c(2))),
    );
    assert_eq!(run_i32(&compiled, vec![4]), 10);
}

#[test]
fn let_test_let_binding_in_if_expression() {
    // |x: i32| -> i32 { let y = x + 1; if y > 10 { y } else { 0 } }
    let compiled = closure(
        vec![TypeInfo::I32],
        TypeInfo::I32,
        block(
            vec![let_local(0, TypeInfo::I32, plus(arg(0), i32c(1)))],
            if_else(greater(arg(1), i32c(10)), arg(1), i32c(0)),
        ),
    );
    assert_eq!(run_i32(&compiled, vec![4]), 0);
    assert_eq!(run_i32(&compiled, vec![10]), 11);
}

#[test]
fn let_test_let_binding_shadowing() {
    // |x: i32| -> i32 { let y = x + 1; let z = y * 2; let y = x + 10; y + z }
    let compiled = closure(
        vec![TypeInfo::I32],
        TypeInfo::I32,
        block(
            vec![
                let_local(0, TypeInfo::I32, plus(arg(0), i32c(1))),
                let_local(1, TypeInfo::I32, times(arg(1), i32c(2))),
                let_local(2, TypeInfo::I32, plus(arg(0), i32c(10))),
            ],
            plus(arg(3), arg(2)),
        ),
    );
    assert_eq!(run_i32(&compiled, vec![4]), 24);
}

