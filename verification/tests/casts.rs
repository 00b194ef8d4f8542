#![allow(dead_code)]

use closure_ir::{call, Block, Closure, Datum, Expr, Statement, TypeInfo, Value};

const FUEL: u64 = 10_000;

fn bx(e: Expr) -> Box<Expr> {
    Box::new(e)
}

fn arg(index: usize) -> Expr {
    Expr::Argument(index)
}

fn lit(value: Value) -> Expr {
    Expr::Constant(value)
}

fn i32c(value: i32) -> Expr {
    Expr::Constant(Value::I32(value))
}

fn plus(lhs: Expr, rhs: Expr) -> Expr {
    Expr::Add { lhs: bx(lhs), rhs: bx(rhs) }
}

fn minus(lhs: Expr, rhs: Expr) -> Expr {
    Expr::Sub { lhs: bx(lhs), rhs: bx(rhs) }
}

fn times(lhs: Expr, rhs: Expr) -> Expr {
    Expr::Mul { lhs: bx(lhs), rhs: bx(rhs) }
}

fn greater(lhs: Expr, rhs: Expr) -> Expr {
    Expr::Gt { lhs: bx(lhs), rhs: bx(rhs) }
}

fn greater_eq(lhs: Expr, rhs: Expr) -> Expr {
    Expr::Ge { lhs: bx(lhs), rhs: bx(rhs) }
}

fn less(lhs: Expr, rhs: Expr) -> Expr {
    Expr::Lt { lhs: bx(lhs), rhs: bx(rhs) }
}

fn less_eq(lhs: Expr, rhs: Expr) -> Expr {
    Expr::Le { lhs: bx(lhs), rhs: bx(rhs) }
}

fn equal(lhs: Expr, rhs: Expr) -> Expr {
    Expr::Eq { lhs: bx(lhs), rhs: bx(rhs) }
}

fn both(lhs: Expr, rhs: Expr) -> Expr {
    Expr::And { lhs: bx(lhs), rhs: bx(rhs) }
}

fn if_else(condition: Expr, then_branch: Expr, else_branch: Expr) -> Expr {
    Expr::IfElse { condition: bx(condition), then_branch: bx(then_branch), else_branch: bx(else_branch) }
}

fn let_local(local: usize, type_info: TypeInfo, value: Expr) -> Statement {
    Statement::Let { local, type_info, value, mutable: false }
}

fn let_mut(local: usize, type_info: TypeInfo, value: Expr) -> Statement {
    Statement::Let { local, type_info, value, mutable: true }
}

fn assign(local: usize, value: Expr) -> Statement {
    Statement::Assign { local, value }
}

fn block(statements: Vec<Statement>, result: Expr) -> Block {
    Block { statements, result: Some(result) }
}

fn closure(arguments: Vec<TypeInfo>, return_type: TypeInfo, body: Block) -> Closure {
    Closure { captures: vec![], arguments, return_type, body, external_functions: vec![] }
}

fn lambda(arguments: Vec<TypeInfo>, return_type: TypeInfo, body: Expr) -> Closure {
    closure(arguments, return_type, Block::expression(body))
}

fn run(compiled: &Closure, arguments: Vec<Value>) -> Value {
    let arguments = arguments.into_iter().map(Datum::Scalar).collect();
    let outcome = call(compiled, &vec![], arguments, FUEL).expect("the closure runs");
    match outcome.result {
        Some(Datum::Scalar(value)) => value,
        other => panic!("unexpected result {:?}", other),
    }
}

fn run_i32(compiled: &Closure, arguments: Vec<i32>) -> i32 {
    match run(compiled, arguments.into_iter().map(Value::I32).collect()) {
        Value::I32(value) => value,
        other => panic!("unexpected result {:?}", other),
    }
}

fn run_bool(compiled: &Closure, arguments: Vec<i32>) -> bool {
    match run(compiled, arguments.into_iter().map(Value::I32).collect()) {
        Value::Bool(value) => value,
        other => panic!("unexpected result {:?}", other),
    }
}

#[test]
fn test_i8_to_i32() {
    // |a: i8| -> i32 { a as i32 }
    let compiled = lambda(
        vec![TypeInfo::I8],
        TypeInfo::I32,
        Expr::Cast { expr: bx(arg(0)), source_type: TypeInfo::I8, target_type: TypeInfo::I32 },
    );
    assert_eq!(run(&compiled, vec![Value::I8(-7i8)]), Value::I32(-7));
}

#[test]
fn test_u8_to_i64() {
    // |a: u8| -> i64 { a as i64 }
    let compiled = lambda(
        vec![TypeInfo::U8],
        TypeInfo::I64,
        Expr::Cast { expr: bx(arg(0)), source_type: TypeInfo::U8, target_type: TypeInfo::I64 },
    );
    assert_eq!(run(&compiled, vec![Value::U8(250u8)]), Value::I64(250));
}

#[test]
fn test_i64_to_i8() {
    // |a: i64| -> i8 { a as i8 }
    let compiled = lambda(
        vec![TypeInfo::I64],
        TypeInfo::I8,
        Expr::Cast { expr: bx(arg(0)), source_type: TypeInfo::I64, target_type: TypeInfo::I8 },
    );
    assert_eq!(run(&compiled, vec![Value::I64(257i64)]), Value::I8(1i8));
}

#[test]
fn test_usize_to_i64() {
    // |a: usize| -> i64 { a as i64 }
    let compiled = lambda(
        vec![TypeInfo::Usize],
        TypeInfo::I64,
        Expr::Cast { expr: bx(arg(0)), source_type: TypeInfo::Usize, target_type: TypeInfo::I64 },
    );
    assert_eq!(run(&compiled, vec![Value::Usize(42usize)]), Value::I64(42));
}

