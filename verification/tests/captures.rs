#![allow(dead_code)]

use closure_ir::{call, Block, Closure, Datum, Expr, Statement, TypeInfo, Value};

const FUEL: u64 = 10_000;

fn bx(e: Expr) -> Box<Expr> {
    Box::new(e)
}

fn arg(index: usize) -> Expr {
    Expr::Argument(index)
}

fn lit(value: Value) -> Expr {
    Expr::Constant(value)
}

fn i32c(value: i32) -> Expr {
    Expr::Constant(Value::I32(value))
}

fn plus(lhs: Expr, rhs: Expr) -> Expr {
    Expr::Add { lhs: bx(lhs), rhs: bx(rhs) }
}

fn minus(lhs: Expr, rhs: Expr) -> Expr {
    Expr::Sub { lhs: bx(lhs), rhs: bx(rhs) }
}

fn times(lhs: Expr, rhs: Expr) -> Expr {
    Expr::Mul { lhs: bx(lhs), rhs: bx(rhs) }
}

fn greater(lhs: Expr, rhs: Expr) -> Expr {
    Expr::Gt { lhs: bx(lhs), rhs: bx(rhs) }
}

fn greater_eq(lhs: Expr, rhs: Expr) -> Expr {
    Expr::Ge { lhs: bx(lhs), rhs: bx(rhs) }
}

fn less(lhs: Expr, rhs: Expr) -> Expr {
    Expr::Lt { lhs: bx(lhs), rhs: bx(rhs) }
}

fn less_eq(lhs: Expr, rhs: Expr) -> Expr {
    Expr::Le { lhs: bx(lhs), rhs: bx(rhs) }
}

fn equal(lhs: Expr, rhs: Expr) -> Expr {
    Expr::Eq { lhs: bx(lhs), rhs: bx(rhs) }
}

fn both(lhs: Expr, rhs: Expr) -> Expr {
    Expr::And { lhs: bx(lhs), rhs: bx(rhs) }
}

fn if_else(condition: Expr, then_branch: Expr, else_branch: Expr) -> Expr {
    Expr::IfElse { condition: bx(condition), then_branch: bx(then_branch), else_branch: bx(else_branch) }
}

fn let_local(local: usize, type_info: TypeInfo, value: Expr) -> Statement {
    Statement::Let { local, type_info, value, mutable: false }
}

fn let_mut(local: usize, type_info: TypeInfo, value: Expr) -> Statement {
    Statement::Let { local, type_info, value, mutable: true }
}

fn assign(local: usize, value: Expr) -> Statement {
    Statement::Assign { local, value }
}

fn block(statements: Vec<Statement>, result: Expr) -> Block {
    Block { statements, result: Some(result) }
}

fn closure(arguments: Vec<TypeInfo>, return_type: TypeInfo, body: Block) -> Closure {
    Closure { captures: vec![], arguments, return_type, body, external_functions: vec![] }
}

fn lambda(arguments: Vec<TypeInfo>, return_type: TypeInfo, body: Expr) -> Closure {
    closure(arguments, return_type, Block::expression(body))
}

fn run(compiled: &Closure, arguments: Vec<Value>) -> Value {
    let arguments = arguments.into_iter().map(Datum::Scalar).collect();
    let outcome = call(compiled, &vec![], arguments, FUEL).expect("the closure runs");
    match outcome.result {
        Some(Datum::Scalar(value)) => value,
        other => panic!("unexpected result {:?}", other),
    }
}

fn run_i32(compiled: &Closure, arguments: Vec<i32>) -> i32 {
    match run(compiled, arguments.into_iter().map(Value::I32).collect()) {
        Value::I32(value) => value,
        other => panic!("unexpected result {:?}", other),
    }
}

fn run_bool(compiled: &Closure, arguments: Vec<i32>) -> bool {
    match run(compiled, arguments.into_iter().map(Value::I32).collect()) {
        Value::Bool(value) => value,
        other => panic!("unexpected result {:?}", other),
    }
}

#[test]
fn captures_multiple_values() {
    // let scale = 2_i32; let offset = 3_i32; |x: i32| -> i32 { x * scale + offset }
    let scale = 2_i32;
    let offset = 3_i32;
    let compiled = Closure {
        captures: vec![TypeInfo::I32, TypeInfo::I32],
        arguments: vec![TypeInfo::I32],
        return_type: TypeInfo::I32,
        body: Block::expression(plus(times(arg(0), Expr::Capture(0)), Expr::Capture(1))),
        external_functions: vec![],
    };
    let environment = vec![Datum::Scalar(Value::I32(scale)), Datum::Scalar(Value::I32(offset))];
    let args = vec![Datum::Scalar(Value::I32(4_i32))];
    let outcome = call(&compiled, &environment, args, FUEL).unwrap();
    assert_eq!(outcome.result, Some(Datum::Scalar(Value::I32(11))));
}

#[test]
fn capture_is_stored_in_compiled_environment() {
    // let scale = 3_i32; |x: i32| -> i32 { x * scale }
    let scale = 3_i32;
    let compiled = Closure {
        captures: vec![TypeInfo::I32],
        arguments: vec![TypeInfo::I32],
        return_type: TypeInfo::I32,
        body: Block::expression(times(arg(0), Expr::Capture(0))),
        external_functions: vec![],
    };
    let environment = vec![Datum::Scalar(Value::I32(scale))];
    let first = call(&compiled, &environment, vec![Datum::Scalar(Value::I32(2_i32))], FUEL).unwrap();
    let second = call(&compiled, &environment, vec![Datum::Scalar(Value::I32(7_i32))], FUEL).unwrap();
    assert_eq!(first.result, Some(Datum::Scalar(Value::I32(6))));
    assert_eq!(second.result, Some(Datum::Scalar(Value::I32(21))));
}

