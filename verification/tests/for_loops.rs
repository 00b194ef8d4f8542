#![allow(dead_code)]

use closure_ir::{call, Block, Closure, Datum, Expr, Statement, TypeInfo, Value};

const FUEL: u64 = 10_000;

fn bx(e: Expr) -> Box<Expr> {
    Box::new(e)
}

fn arg(index: usize) -> Expr {
    Expr::Argument(index)
}

fn lit(value: Value) -> Expr {
    Expr::Constant(value)
}

fn i32c(value: i32) -> Expr {
    Expr::Constant(Value::I32(value))
}

fn plus(lhs: Expr, rhs: Expr) -> Expr {
    Expr::Add { lhs: bx(lhs), rhs: bx(rhs) }
}

fn minus(lhs: Expr, rhs: Expr) -> Expr {
    Expr::Sub { lhs: bx(lhs), rhs: bx(rhs) }
}

fn times(lhs: Expr, rhs: Expr) -> Expr {
    Expr::Mul { lhs: bx(lhs), rhs: bx(rhs) }
}

fn greater(lhs: Expr, rhs: Expr) -> Expr {
    Expr::Gt { lhs: bx(lhs), rhs: bx(rhs) }
}

fn greater_eq(lhs: Expr, rhs: Expr) -> Expr {
    Expr::Ge { lhs: bx(lhs), rhs: bx(rhs) }
}

fn less(lhs: Expr, rhs: Expr) -> Expr {
    Expr::Lt { lhs: bx(lhs), rhs: bx(rhs) }
}

fn less_eq(lhs: Expr, rhs: Expr) -> Expr {
    Expr::Le { lhs: bx(lhs), rhs: bx(rhs) }
}

fn equal(lhs: Expr, rhs: Expr) -> Expr {
    Expr::Eq { lhs: bx(lhs), rhs: bx(rhs) }
}

fn both(lhs: Expr, rhs: Expr) -> Expr {
    Expr::And { lhs: bx(lhs), rhs: bx(rhs) }
}

fn if_else(condition: Expr, then_branch: Expr, else_branch: Expr) -> Expr {
    Expr::IfElse { condition: bx(condition), then_branch: bx(then_branch), else_branch: bx(else_branch) }
}

fn let_local(local: usize, type_info: TypeInfo, value: Expr) -> Statement {
    Statement::Let { local, type_info, value, mutable: false }
}

fn let_mut(local: usize, type_info: TypeInfo, value: Expr) -> Statement {
    Statement::Let { local, type_info, value, mutable: true }
}

fn assign(local: usize, value: Expr) -> Statement {
    Statement::Assign { local, value }
}

fn block(statements: Vec<Statement>, result: Expr) -> Block {
    Block { statements, result: Some(result) }
}

fn closure(arguments: Vec<TypeInfo>, return_type: TypeInfo, body: Block) -> Closure {
    Closure { captures: vec![], arguments, return_type, body, external_functions: vec![] }
}

fn lambda(arguments: Vec<TypeInfo>, return_type: TypeInfo, body: Expr) -> Closure {
    closure(arguments, return_type, Block::expression(body))
}

/// Runs `closure` on the reference semantics; the LLVM lowering has no
/// `for` loops, so these scenarios are not lowered.
fn run(compiled: &Closure, arguments: Vec<Value>) -> Value {
    let arguments = arguments.into_iter().map(Datum::Scalar).collect();
    let outcome = call(compiled, &vec![], arguments, FUEL).expect("the closure runs");
    match outcome.result {
        Some(Datum::Scalar(value)) => value,
        other => panic!("unexpected result {:?}", other),
    }
}

fn run_i32(compiled: &Closure, arguments: Vec<i32>) -> i32 {
    match run(compiled, arguments.into_iter().map(Value::I32).collect()) {
        Value::I32(value) => value,
        other => panic!("unexpected result {:?}", other),
    }
}

fn run_bool(compiled: &Closure, arguments: Vec<i32>) -> bool {
    match run(compiled, arguments.into_iter().map(Value::I32).collect()) {
        Value::Bool(value) => value,
        other => panic!("unexpected result {:?}", other),
    }
}

fn for_range(local: usize, start: Expr, end: Expr, inclusive: bool, body: Vec<Statement>) -> Statement {
    Statement::For { local, type_info: TypeInfo::I32, start, end, inclusive, body: Block::statements(body) }
}

#[test]
fn test_for_loop_sum() {
    // || -> i32 { let mut sum = 0; for i in 0..5 { sum = sum + i; } sum }
    let compiled = closure(
        vec![],
        TypeInfo::I32,
        block(
            vec![let_mut(0, TypeInfo::I32, i32c(0)), for_range(1, i32c(0), i32c(5), false, vec![assign(0, plus(arg(0), arg(1)))])],
            arg(0),
        ),
    );
    assert_eq!(run_i32(&compiled, vec![]), 10);
}

#[test]
fn test_for_loop_zero_iterations() {
    // |x: i32| -> i32 { let mut sum = 7; for i in x..x { sum = sum + i; } sum }
    let compiled = closure(
        vec![TypeInfo::I32],
        TypeInfo::I32,
        block(
            vec![let_mut(0, TypeInfo::I32, i32c(7)), for_range(1, arg(0), arg(0), false, vec![assign(0, plus(arg(1), arg(2)))])],
            arg(1),
        ),
    );
    assert_eq!(run_i32(&compiled, vec![3]), 7);
}

#[test]
fn test_for_loop_uses_closure_argument() {
    // |n: i32| -> i32 { let mut sum = 0; for i in 0..n { sum = sum + i; } sum }
    let compiled = closure(
        vec![TypeInfo::I32],
        TypeInfo::I32,
        block(
            vec![let_mut(0, TypeInfo::I32, i32c(0)), for_range(1, i32c(0), arg(0), false, vec![assign(0, plus(arg(1), arg(2)))])],
            arg(1),
        ),
    );
    assert_eq!(run_i32(&compiled, vec![0]), 0);
    assert_eq!(run_i32(&compiled, vec![1]), 0);
    assert_eq!(run_i32(&compiled, vec![5]), 10);
}

#[test]
fn test_for_loop_inclusive_range() {
    // || -> i32 { let mut sum = 0; for i in 1..=5 { sum = sum + i; } sum }
    let compiled = closure(
        vec![],
        TypeInfo::I32,
        block(
            vec![let_mut(0, TypeInfo::I32, i32c(0)), for_range(1, i32c(1), i32c(5), true, vec![assign(0, plus(arg(0), arg(1)))])],
            arg(0),
        ),
    );
    assert_eq!(run_i32(&compiled, vec![]), 15);
}

#[test]
fn test_for_loop_u32() {
    // || -> u32 { let mut sum = 0u32; for i in 0u32..4u32 { sum = sum + i; } sum }
    let compiled = closure(
        vec![],
        TypeInfo::U32,
        block(
            vec![
                let_mut(0, TypeInfo::U32, lit(Value::U32(0))),
                Statement::For {
                    local: 1,
                    type_info: TypeInfo::U32,
                    start: lit(Value::U32(0)),
                    end: lit(Value::U32(4)),
                    inclusive: false,
                    body: Block::statements(vec![assign(0, plus(arg(0), arg(1)))]),
                },
            ],
            arg(0),
        ),
    );
    assert_eq!(run(&compiled, vec![]), Value::U32(6u32));
}

#[test]
fn test_for_loop_nested_body_mutation() {
    // |n: i32| -> i32 { let mut value = 0; for i in 0..n { value = value + 1; } value }
    let compiled = closure(
        vec![TypeInfo::I32],
        TypeInfo::I32,
        block(
            vec![let_mut(0, TypeInfo::I32, i32c(0)), for_range(1, i32c(0), arg(0), false, vec![assign(0, plus(arg(1), i32c(1)))])],
            arg(1),
        ),
    );
    assert_eq!(run_i32(&compiled, vec![6]), 6);
}

