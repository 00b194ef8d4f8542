#![allow(dead_code)]

use closure_ir::{call, Block, Closure, Datum, Expr, Statement, TypeInfo, Value};

const FUEL: u64 = 10_000;

fn bx(e: Expr) -> Box<Expr> {
    Box::new(e)
}

fn arg(index: usize) -> Expr {
    Expr::Argument(index)
}

fn lit(value: Value) -> Expr {
    Expr::Constant(value)
}

fn i32c(value: i32) -> Expr {
    Expr::Constant(Value::I32(value))
}

fn plus(lhs: Expr, rhs: Expr) -> Expr {
    Expr::Add { lhs: bx(lhs), rhs: bx(rhs) }
}

fn minus(lhs: Expr, rhs: Expr) -> Expr {
    Expr::Sub { lhs: bx(lhs), rhs: bx(rhs) }
}

fn times(lhs: Expr, rhs: Expr) -> Expr {
    Expr::Mul { lhs: bx(lhs), rhs: bx(rhs) }
}

fn greater(lhs: Expr, rhs: Expr) -> Expr {
    Expr::Gt { lhs: bx(lhs), rhs: bx(rhs) }
}

fn greater_eq(lhs: Expr, rhs: Expr) -> Expr {
    Expr::Ge { lhs: bx(lhs), rhs: bx(rhs) }
}

fn less(lhs: Expr, rhs: Expr) -> Expr {
    Expr::Lt { lhs: bx(lhs), rhs: bx(rhs) }
}

fn less_eq(lhs: Expr, rhs: Expr) -> Expr {
    Expr::Le { lhs: bx(lhs), rhs: bx(rhs) }
}

fn equal(lhs: Expr, rhs: Expr) -> Expr {
    Expr::Eq { lhs: bx(lhs), rhs: bx(rhs) }
}

fn both(lhs: Expr, rhs: Expr) -> Expr {
    Expr::And { lhs: bx(lhs), rhs: bx(rhs) }
}

fn if_else(condition: Expr, then_branch: Expr, else_branch: Expr) -> Expr {
    Expr::IfElse { condition: bx(condition), then_branch: bx(then_branch), else_branch: bx(else_branch) }
}

fn let_local(local: usize, type_info: TypeInfo, value: Expr) -> Statement {
    Statement::Let { local, type_info, value, mutable: false }
}

fn let_mut(local: usize, type_info: TypeInfo, value: Expr) -> Statement {
    Statement::Let { local, type_info, value, mutable: true }
}

fn assign(local: usize, value: Expr) -> Statement {
    Statement::Assign { local, value }
}

fn block(statements: Vec<Statement>, result: Expr) -> Block {
    Block { statements, result: Some(result) }
}

fn closure(arguments: Vec<TypeInfo>, return_type: TypeInfo, body: Block) -> Closure {
    Closure { captures: vec![], arguments, return_type, body, external_functions: vec![] }
}

fn lambda(arguments: Vec<TypeInfo>, return_type: TypeInfo, body: Expr) -> Closure {
    closure(arguments, return_type, Block::expression(body))
}

fn run(compiled: &Closure, arguments: Vec<Value>) -> Value {
    let arguments = arguments.into_iter().map(Datum::Scalar).collect();
    let outcome = call(compiled, &vec![], arguments, FUEL).expect("the closure runs");
    match outcome.result {
        Some(Datum::Scalar(value)) => value,
        other => panic!("unexpected result {:?}", other),
    }
}

fn run_i32(compiled: &Closure, arguments: Vec<i32>) -> i32 {
    match run(compiled, arguments.into_iter().map(Value::I32).collect()) {
        Value::I32(value) => value,
        other => panic!("unexpected result {:?}", other),
    }
}

fn run_bool(compiled: &Closure, arguments: Vec<i32>) -> bool {
    match run(compiled, arguments.into_iter().map(Value::I32).collect()) {
        Value::Bool(value) => value,
        other => panic!("unexpected result {:?}", other),
    }
}

fn unit_type() -> TypeInfo {
    TypeInfo::Struct { name: "()".to_string(), fields: vec![] }
}

fn closure_unit(arguments: Vec<TypeInfo>, statements: Vec<Statement>) -> Closure {
    closure(arguments, unit_type(), Block::statements(statements))
}

fn first_i32(values: &Datum) -> i32 {
    match values {
        Datum::Sequence(items) => match &items[0] {
            Datum::Scalar(Value::I32(value)) => *value,
            other => panic!("unexpected element {:?}", other),
        },
        other => panic!("unexpected argument {:?}", other),
    }
}

#[test]
fn test_closure_without_explicit_return_type() {
    // || {}
    let compiled = closure_unit(vec![], vec![]);
    let outcome = call(&compiled, &vec![], vec![], FUEL).unwrap();
    assert_eq!(outcome.result, None);
}

#[test]
fn test_explicit_unit_return_type() {
    // || -> () {}
    let compiled = closure_unit(vec![], vec![]);
    let outcome = call(&compiled, &vec![], vec![], FUEL).unwrap();
    assert_eq!(outcome.result, None);
}

#[test]
fn test_unit_closure_with_argument() {
    // |values: &mut [i32]| { values[0] = 42; }
    let compiled = closure_unit(
        vec![TypeInfo::Slice { element: Box::new(TypeInfo::I32) }],
        vec![Statement::AssignIndex { sequence: arg(0), index: lit(Value::Usize(0)), value: i32c(42) }],
    );
    let values = Datum::Sequence(vec![Datum::Scalar(Value::I32(0))]);
    let outcome = call(&compiled, &vec![], vec![values], FUEL).unwrap();
    assert_eq!(first_i32(&outcome.arguments[0]), 42);
}

#[test]
fn test_unit_closure_with_multiple_statements() {
    // |values: &mut [i32]| { let mut result: i32 = values[0]; result = result + 10; values[0] = result; }
    let compiled = closure_unit(
        vec![TypeInfo::Slice { element: Box::new(TypeInfo::I32) }],
        vec![
            let_mut(0, TypeInfo::I32, Expr::Index { sequence: bx(arg(0)), index: bx(lit(Value::Usize(0))) }),
            assign(0, plus(arg(1), i32c(10))),
            Statement::AssignIndex { sequence: arg(0), index: lit(Value::Usize(0)), value: arg(1) },
        ],
    );
    let values = Datum::Sequence(vec![Datum::Scalar(Value::I32(5))]);
    let outcome = call(&compiled, &vec![], vec![values], FUEL).unwrap();
    assert_eq!(first_i32(&outcome.arguments[0]), 15);
}

