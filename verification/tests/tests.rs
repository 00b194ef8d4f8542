#![allow(dead_code)]

use closure_ir::{call, Block, Closure, Datum, Expr, FieldInfo, Statement, TypeInfo, Value};

const FUEL: u64 = 10_000;

fn bx(e: Expr) -> Box<Expr> {
    Box::new(e)
}

fn arg(index: usize) -> Expr {
    Expr::Argument(index)
}

fn lit(value: Value) -> Expr {
    Expr::Constant(value)
}

fn i32c(value: i32) -> Expr {
    Expr::Constant(Value::I32(value))
}

fn plus(lhs: Expr, rhs: Expr) -> Expr {
    Expr::Add { lhs: bx(lhs), rhs: bx(rhs) }
}

fn minus(lhs: Expr, rhs: Expr) -> Expr {
    Expr::Sub { lhs: bx(lhs), rhs: bx(rhs) }
}

fn times(lhs: Expr, rhs: Expr) -> Expr {
    Expr::Mul { lhs: bx(lhs), rhs: bx(rhs) }
}

fn greater(lhs: Expr, rhs: Expr) -> Expr {
    Expr::Gt { lhs: bx(lhs), rhs: bx(rhs) }
}

fn greater_eq(lhs: Expr, rhs: Expr) -> Expr {
    Expr::Ge { lhs: bx(lhs), rhs: bx(rhs) }
}

fn less(lhs: Expr, rhs: Expr) -> Expr {
    Expr::Lt { lhs: bx(lhs), rhs: bx(rhs) }
}

fn less_eq(lhs: Expr, rhs: Expr) -> Expr {
    Expr::Le { lhs: bx(lhs), rhs: bx(rhs) }
}

fn equal(lhs: Expr, rhs: Expr) -> Expr {
    Expr::Eq { lhs: bx(lhs), rhs: bx(rhs) }
}

fn both(lhs: Expr, rhs: Expr) -> Expr {
    Expr::And { lhs: bx(lhs), rhs: bx(rhs) }
}

fn if_else(condition: Expr, then_branch: Expr, else_branch: Expr) -> Expr {
    Expr::IfElse { condition: bx(condition), then_branch: bx(then_branch), else_branch: bx(else_branch) }
}

fn let_local(local: usize, type_info: TypeInfo, value: Expr) -> Statement {
    Statement::Let { local, type_info, value, mutable: false }
}

fn let_mut(local: usize, type_info: TypeInfo, value: Expr) -> Statement {
    Statement::Let { local, type_info, value, mutable: true }
}

fn assign(local: usize, value: Expr) -> Statement {
    Statement::Assign { local, value }
}

fn block(statements: Vec<Statement>, result: Expr) -> Block {
    Block { statements, result: Some(result) }
}

fn closure(arguments: Vec<TypeInfo>, return_type: TypeInfo, body: Block) -> Closure {
    Closure { captures: vec![], arguments, return_type, body, external_functions: vec![] }
}

fn lambda(arguments: Vec<TypeInfo>, return_type: TypeInfo, body: Expr) -> Closure {
    closure(arguments, return_type, Block::expression(body))
}

/// Lowers `closure` to LLVM, which must succeed for every closure these
/// scenarios run, then runs it on the reference semantics.
fn run(compiled: &Closure, arguments: Vec<Value>) -> Value {
    let context = inkwell::context::Context::create();
    let lowered = closure_ir::compiler::Compiler::new(&context).compile(compiled);
    assert!(lowered.is_ok(), "the closure lowers to LLVM: {:?}", lowered.err());
    let arguments = arguments.into_iter().map(Datum::Scalar).collect();
    let outcome = call(compiled, &vec![], arguments, FUEL).expect("the closure runs");
    match outcome.result {
        Some(Datum::Scalar(value)) => value,
        other => panic!("unexpected result {:?}", other),
    }
}

fn run_i32(compiled: &Closure, arguments: Vec<i32>) -> i32 {
    match run(compiled, arguments.into_iter().map(Value::I32).collect()) {
        Value::I32(value) => value,
        other => panic!("unexpected result {:?}", other),
    }
}

fn run_bool(compiled: &Closure, arguments: Vec<i32>) -> bool {
    match run(compiled, arguments.into_iter().map(Value::I32).collect()) {
        Value::Bool(value) => value,
        other => panic!("unexpected result {:?}", other),
    }
}

#[test]
fn tests_test_let_binding() {
    // |x: i32| -> i32 { let y = x + 1; y * 2 }
    let compiled = closure(
        vec![TypeInfo::I32],
        TypeInfo::I32,
        block(vec![let_local(0, TypeInfo::I32, plus(arg(0), i32c(1)))], times(arg(1), i32c(2))),
    );
    assert_eq!(run_i32(&compiled, vec![4]), 10);
}

#[test]
fn tests_test_multiple_let_bindings() {
    // |x: i32| -> i32 { let y = x + 1; let z = y * 2; z - 3 }
    let compiled = closure(
        vec![TypeInfo::I32],
        TypeInfo::I32,
        block(
            vec![
                let_local(0, TypeInfo::I32, plus(arg(0), i32c(1))),
                let_local(1, TypeInfo::I32, times(arg(1), i32c(2))),
            ],
            minus(arg(2), i32c(3)),
        ),
    );
    assert_eq!(run_i32(&compiled, vec![4]), 7);
}

#[test]
fn tests_test_annotated_let_binding() {
    // |x: i32| -> i32 { let y: i32 = x + 1; y * 2 }
    let compiled = closure(
        vec![TypeInfo::I32],
        TypeInfo::I32,
        block(vec![let_local(0, TypeInfo::I32, plus(arg(0), i32c(1)))], times(arg(1), i32c(2))),
    );
    assert_eq!(run_i32(&compiled, vec![4]), 10);
}

#[test]
fn tests_test_let_binding_in_if_expression() {
    // |x: i32| -> i32 { let y = x + 1; if y > 10 { y } else { 0 } }
    let compiled = closure(
        vec![TypeInfo::I32],
        TypeInfo::I32,
        block(
            vec![let_local(0, TypeInfo::I32, plus(arg(0), i32c(1)))],
            if_else(greater(arg(1), i32c(10)), arg(1), i32c(0)),
        ),
    );
    assert_eq!(run_i32(&compiled, vec![4]), 0);
    assert_eq!(run_i32(&compiled, vec![10]), 11);
}

#[test]
fn tests_test_let_binding_shadowing() {
    // |x: i32| -> i32 { let y = x + 1; let z = y * 2; let y = x + 10; y + z }
    let compiled = closure(
        vec![TypeInfo::I32],
        TypeInfo::I32,
        block(
            vec![
                let_local(0, TypeInfo::I32, plus(arg(0), i32c(1))),
                let_local(1, TypeInfo::I32, times(arg(1), i32c(2))),
                let_local(2, TypeInfo::I32, plus(arg(0), i32c(10))),
            ],
            plus(arg(3), arg(2)),
        ),
    );
    assert_eq!(run_i32(&compiled, vec![4]), 24);
}

#[test]
fn tests_test_four_arguments_add() {
    // |w: i32, x: i32, y: i32, z: i32| -> i32 { w + x + y + z }
    let compiled = lambda(
        vec![TypeInfo::I32, TypeInfo::I32, TypeInfo::I32, TypeInfo::I32],
        TypeInfo::I32,
        plus(plus(plus(arg(0), arg(1)), arg(2)), arg(3)),
    );
    assert_eq!(run_i32(&compiled, vec![2, 3, 4, 5]), 14);
}

#[test]
fn tests_test_two_arguments_add() {
    // |x: i32, y: i32| -> i32 { x + y }
    let compiled = lambda(vec![TypeInfo::I32, TypeInfo::I32], TypeInfo::I32, plus(arg(0), arg(1)));
    assert_eq!(run_i32(&compiled, vec![2, 3]), 5);
}

#[test]
fn tests_test_two_arguments_subtract() {
    // |x: i32, y: i32| -> i32 { x - y }
    let compiled = lambda(vec![TypeInfo::I32, TypeInfo::I32], TypeInfo::I32, minus(arg(0), arg(1)));
    assert_eq!(run_i32(&compiled, vec![10, 3]), 7);
}

#[test]
fn tests_test_two_arguments_comparison() {
    // |x: i32, y: i32| -> bool { x > y }
    let compiled = lambda(vec![TypeInfo::I32, TypeInfo::I32], TypeInfo::Bool, greater(arg(0), arg(1)));
    assert!(run_bool(&compiled, vec![10, 5]));
    assert!(!run_bool(&compiled, vec![5, 10]));
}

#[test]
fn tests_test_two_arguments_if_else() {
    // |x: i32, y: i32| -> i32 { if x > y { x } else { y } }
    let compiled = lambda(
        vec![TypeInfo::I32, TypeInfo::I32],
        TypeInfo::I32,
        if_else(greater(arg(0), arg(1)), arg(0), arg(1)),
    );
    assert_eq!(run_i32(&compiled, vec![10, 5]), 10);
    assert_eq!(run_i32(&compiled, vec![5, 10]), 10);
}

#[test]
fn tests_test_zero_arguments() {
    // || -> i32 { 100 }
    let compiled = lambda(vec![], TypeInfo::I32, i32c(100));
    assert_eq!(run_i32(&compiled, vec![]), 100);
}

#[test]
fn tests_test_compound_comparison() {
    // |x: i32| -> bool { x > 10 && x < 20 }
    let compiled = lambda(
        vec![TypeInfo::I32],
        TypeInfo::Bool,
        both(greater(arg(0), i32c(10)), less(arg(0), i32c(20))),
    );
    assert!(!run_bool(&compiled, vec![5]));
    assert!(run_bool(&compiled, vec![15]));
    assert!(!run_bool(&compiled, vec![25]));
}

#[test]
fn tests_test_compound_if_condition() {
    // |x: i32| -> i32 { if x >= 10 && x <= 20 { 1 } else { 0 } }
    let compiled = lambda(
        vec![TypeInfo::I32],
        TypeInfo::I32,
        if_else(both(greater_eq(arg(0), i32c(10)), less_eq(arg(0), i32c(20))), i32c(1), i32c(0)),
    );
    assert_eq!(run_i32(&compiled, vec![5]), 0);
    assert_eq!(run_i32(&compiled, vec![10]), 1);
    assert_eq!(run_i32(&compiled, vec![15]), 1);
    assert_eq!(run_i32(&compiled, vec![20]), 1);
    assert_eq!(run_i32(&compiled, vec![25]), 0);
}

#[test]
fn tests_test_if_else_true() {
    // |x: i32| -> i32 { if x > 10 { 100 } else { 200 } }
    let compiled = lambda(vec![TypeInfo::I32], TypeInfo::I32, if_else(greater(arg(0), i32c(10)), i32c(100), i32c(200)));
    assert_eq!(run_i32(&compiled, vec![20]), 100);
}

#[test]
fn tests_test_if_else_false() {
    // |x: i32| -> i32 { if x > 10 { 100 } else { 200 } }
    let compiled = lambda(vec![TypeInfo::I32], TypeInfo::I32, if_else(greater(arg(0), i32c(10)), i32c(100), i32c(200)));
    assert_eq!(run_i32(&compiled, vec![5]), 200);
}

#[test]
fn tests_test_if_else_argument() {
    // |x: i32| -> i32 { if x > 0 { x + 10 } else { x - 10 } }
    let compiled = lambda(
        vec![TypeInfo::I32],
        TypeInfo::I32,
        if_else(greater(arg(0), i32c(0)), plus(arg(0), i32c(10)), minus(arg(0), i32c(10))),
    );
    assert_eq!(run_i32(&compiled, vec![5]), 15);
    assert_eq!(run_i32(&compiled, vec![-5]), -15);
}

#[test]
fn tests_test_if_else_equal() {
    // |x: i32| -> i32 { if x == 10 { 1 } else { 0 } }
    let compiled = lambda(vec![TypeInfo::I32], TypeInfo::I32, if_else(equal(arg(0), i32c(10)), i32c(1), i32c(0)));
    assert_eq!(run_i32(&compiled, vec![10]), 1);
    assert_eq!(run_i32(&compiled, vec![11]), 0);
}

#[test]
fn tests_test_if_else_less_than() {
    // |x: i32| -> i32 { if x < 10 { 1 } else { 2 } }
    let compiled = lambda(vec![TypeInfo::I32], TypeInfo::I32, if_else(less(arg(0), i32c(10)), i32c(1), i32c(2)));
    assert_eq!(run_i32(&compiled, vec![5]), 1);
    assert_eq!(run_i32(&compiled, vec![15]), 2);
}

#[test]
fn tests_test_else_if() {
    // |x: i32| -> i32 { if x > 10 { 100 } else if x > 5 { 50 } else { 0 } }
    let compiled = lambda(
        vec![TypeInfo::I32],
        TypeInfo::I32,
        if_else(greater(arg(0), i32c(10)), i32c(100), if_else(greater(arg(0), i32c(5)), i32c(50), i32c(0))),
    );
    assert_eq!(run_i32(&compiled, vec![20]), 100);
    assert_eq!(run_i32(&compiled, vec![7]), 50);
    assert_eq!(run_i32(&compiled, vec![2]), 0);
}

#[test]
fn tests_test_nested_if_else() {
    // |x: i32| -> i32 { if x > 0 { if x > 10 { 100 } else { 50 } } else { 0 } }
    let compiled = lambda(
        vec![TypeInfo::I32],
        TypeInfo::I32,
        if_else(greater(arg(0), i32c(0)), if_else(greater(arg(0), i32c(10)), i32c(100), i32c(50)), i32c(0)),
    );
    assert_eq!(run_i32(&compiled, vec![20]), 100);
    assert_eq!(run_i32(&compiled, vec![5]), 50);
    assert_eq!(run_i32(&compiled, vec![-5]), 0);
}

#[test]
fn tests_test_if_else_u32() {
    // |x: u32| -> u32 { if x > 10 { 100 } else { 200 } }
    let compiled = lambda(
        vec![TypeInfo::U32],
        TypeInfo::U32,
        if_else(
            greater(arg(0), lit(Value::U32(10))),
            lit(Value::U32(100)),
            lit(Value::U32(200)),
        ),
    );
    assert_eq!(run(&compiled, vec![Value::U32(20)]), Value::U32(100));
    assert_eq!(run(&compiled, vec![Value::U32(5)]), Value::U32(200));
}

#[test]
fn tests_test_if_else_bool() {
    // |x: bool| -> i32 { if x { 1 } else { 0 } }
    let compiled = lambda(vec![TypeInfo::Bool], TypeInfo::I32, if_else(arg(0), i32c(1), i32c(0)));
    assert_eq!(run(&compiled, vec![Value::Bool(true)]), Value::I32(1));
    assert_eq!(run(&compiled, vec![Value::Bool(false)]), Value::I32(0));
}

#[test]
fn tests_test_if_else_arithmetic() {
    // |x: i32| -> i32 { if x > 10 { x * 2 + 5 } else { x * 3 - 5 } }
    let compiled = lambda(
        vec![TypeInfo::I32],
        TypeInfo::I32,
        if_else(
            greater(arg(0), i32c(10)),
            plus(times(arg(0), i32c(2)), i32c(5)),
            minus(times(arg(0), i32c(3)), i32c(5)),
        ),
    );
    assert_eq!(run_i32(&compiled, vec![20]), 45);
    assert_eq!(run_i32(&compiled, vec![5]), 10);
}

#[test]
fn test_i32_addition() {
    // |a: i32| -> i32 { a + 5 }
    let compiled = lambda(vec![TypeInfo::I32], TypeInfo::I32, plus(arg(0), i32c(5)));
    assert_eq!(run(&compiled, vec![Value::I32(2)]), Value::I32(7));
}

#[test]
fn test_i32_arithmetic() {
    // |a: i32| -> i32 { ((a + 5) * 2) - 3 }
    let compiled = lambda(vec![TypeInfo::I32], TypeInfo::I32, minus(times(plus(arg(0), i32c(5)), i32c(2)), i32c(3)));
    assert_eq!(run(&compiled, vec![Value::I32(2)]), Value::I32(11));
}

#[test]
fn test_i32_division() {
    // |a: i32| -> i32 { a / 2 }
    let compiled = lambda(vec![TypeInfo::I32], TypeInfo::I32, Expr::Div { lhs: bx(arg(0)), rhs: bx(i32c(2)) });
    assert_eq!(run(&compiled, vec![Value::I32(10)]), Value::I32(5));
}

#[test]
fn test_i32_remainder() {
    // |a: i32| -> i32 { a % 3 }
    let compiled = lambda(vec![TypeInfo::I32], TypeInfo::I32, Expr::Rem { lhs: bx(arg(0)), rhs: bx(i32c(3)) });
    assert_eq!(run(&compiled, vec![Value::I32(10)]), Value::I32(1));
}

#[test]
fn test_i8() {
    // |a: i8| -> i8 { a + 5 }
    let compiled = lambda(vec![TypeInfo::I8], TypeInfo::I8, plus(arg(0), lit(Value::I8(5))));
    assert_eq!(run(&compiled, vec![Value::I8(2i8)]), Value::I8(7i8));
}

#[test]
fn test_i16() {
    // |a: i16| -> i16 { a * 3 }
    let compiled = lambda(vec![TypeInfo::I16], TypeInfo::I16, times(arg(0), lit(Value::I16(3))));
    assert_eq!(run(&compiled, vec![Value::I16(4i16)]), Value::I16(12i16));
}

#[test]
fn test_i64() {
    // |a: i64| -> i64 { a - 10 }
    let compiled = lambda(vec![TypeInfo::I64], TypeInfo::I64, minus(arg(0), lit(Value::I64(10))));
    assert_eq!(run(&compiled, vec![Value::I64(25i64)]), Value::I64(15i64));
}

#[test]
fn test_i128() {
    // |a: i128| -> i128 { a + 100i128 }
    let compiled = lambda(vec![TypeInfo::I128], TypeInfo::I128, plus(arg(0), lit(Value::I128(100i128))));
    assert_eq!(run(&compiled, vec![Value::I128(25i128)]), Value::I128(125i128));
}

#[test]
fn test_u8() {
    // |a: u8| -> u8 { a + 5 }
    let compiled = lambda(vec![TypeInfo::U8], TypeInfo::U8, plus(arg(0), lit(Value::U8(5))));
    assert_eq!(run(&compiled, vec![Value::U8(2u8)]), Value::U8(7u8));
}

#[test]
fn test_u16() {
    // |a: u16| -> u16 { a * 3 }
    let compiled = lambda(vec![TypeInfo::U16], TypeInfo::U16, times(arg(0), lit(Value::U16(3))));
    assert_eq!(run(&compiled, vec![Value::U16(4u16)]), Value::U16(12u16));
}

#[test]
fn test_u32() {
    // |a: u32| -> u32 { a + 5 }
    let compiled = lambda(vec![TypeInfo::U32], TypeInfo::U32, plus(arg(0), lit(Value::U32(5))));
    assert_eq!(run(&compiled, vec![Value::U32(2u32)]), Value::U32(7u32));
}

#[test]
fn test_u64() {
    // |a: u64| -> u64 { a * 2 }
    let compiled = lambda(vec![TypeInfo::U64], TypeInfo::U64, times(arg(0), lit(Value::U64(2))));
    assert_eq!(run(&compiled, vec![Value::U64(21u64)]), Value::U64(42u64));
}

#[test]
fn test_u128() {
    // |a: u128| -> u128 { a + 100u128 }
    let compiled = lambda(vec![TypeInfo::U128], TypeInfo::U128, plus(arg(0), lit(Value::U128(100u128))));
    assert_eq!(run(&compiled, vec![Value::U128(25u128)]), Value::U128(125u128));
}

#[test]
fn test_boolean_not() {
    // |b: bool| -> bool { !b }
    let compiled = lambda(vec![TypeInfo::Bool], TypeInfo::Bool, Expr::Not { operand: bx(arg(0)) });
    assert_eq!(run(&compiled, vec![Value::Bool(true)]), Value::Bool(false));
    assert_eq!(run(&compiled, vec![Value::Bool(false)]), Value::Bool(true));
}

#[test]
fn test_integer_negation() {
    // |a: i32| -> i32 { -a }
    let compiled = lambda(vec![TypeInfo::I32], TypeInfo::I32, Expr::Neg { operand: bx(arg(0)) });
    assert_eq!(run(&compiled, vec![Value::I32(5)]), Value::I32(-5));
}

#[test]
fn test_i32_equal() {
    // |a: i32| -> bool { a == 5 }
    let compiled = lambda(vec![TypeInfo::I32], TypeInfo::Bool, equal(arg(0), i32c(5)));
    assert_eq!(run(&compiled, vec![Value::I32(5)]), Value::Bool(true));
    assert_eq!(run(&compiled, vec![Value::I32(4)]), Value::Bool(false));
}

#[test]
fn test_i32_less_than() {
    // |a: i32| -> bool { a < 5 }
    let compiled = lambda(vec![TypeInfo::I32], TypeInfo::Bool, less(arg(0), i32c(5)));
    assert_eq!(run(&compiled, vec![Value::I32(4)]), Value::Bool(true));
    assert_eq!(run(&compiled, vec![Value::I32(5)]), Value::Bool(false));
}

#[test]
fn test_i32_greater_than() {
    // |a: i32| -> bool { a > 5 }
    let compiled = lambda(vec![TypeInfo::I32], TypeInfo::Bool, greater(arg(0), i32c(5)));
    assert_eq!(run(&compiled, vec![Value::I32(6)]), Value::Bool(true));
    assert_eq!(run(&compiled, vec![Value::I32(5)]), Value::Bool(false));
}

#[test]
fn test_u32_comparison() {
    // |a: u32| -> bool { a < 10u32 }
    let compiled = lambda(vec![TypeInfo::U32], TypeInfo::Bool, less(arg(0), lit(Value::U32(10u32))));
    assert_eq!(run(&compiled, vec![Value::U32(5u32)]), Value::Bool(true));
    assert_eq!(run(&compiled, vec![Value::U32(10u32)]), Value::Bool(false));
}

#[test]
fn test_boolean_and() {
    // |a: bool| -> bool { a && true }
    let compiled = lambda(vec![TypeInfo::Bool], TypeInfo::Bool, both(arg(0), lit(Value::Bool(true))));
    assert_eq!(run(&compiled, vec![Value::Bool(true)]), Value::Bool(true));
    assert_eq!(run(&compiled, vec![Value::Bool(false)]), Value::Bool(false));
}

#[test]
fn test_boolean_or() {
    // |a: bool| -> bool { a || false }
    let compiled = lambda(vec![TypeInfo::Bool], TypeInfo::Bool, Expr::Or { lhs: bx(arg(0)), rhs: bx(lit(Value::Bool(false))) });
    assert_eq!(run(&compiled, vec![Value::Bool(true)]), Value::Bool(true));
    assert_eq!(run(&compiled, vec![Value::Bool(false)]), Value::Bool(false));
}

#[test]
fn test_bitwise_and() {
    // |a: u32| -> u32 { a & 0xffu32 }
    let compiled = lambda(vec![TypeInfo::U32], TypeInfo::U32, Expr::BitAnd { lhs: bx(arg(0)), rhs: bx(lit(Value::U32(0xffu32))) });
    assert_eq!(run(&compiled, vec![Value::U32(0x1234u32)]), Value::U32(0x34u32));
}

#[test]
fn test_bitwise_or() {
    // |a: u32| -> u32 { a | 0x10u32 }
    let compiled = lambda(vec![TypeInfo::U32], TypeInfo::U32, Expr::BitOr { lhs: bx(arg(0)), rhs: bx(lit(Value::U32(0x10u32))) });
    assert_eq!(run(&compiled, vec![Value::U32(0x20u32)]), Value::U32(0x30u32));
}

#[test]
fn test_bitwise_xor() {
    // |a: u32| -> u32 { a ^ 0xffu32 }
    let compiled = lambda(vec![TypeInfo::U32], TypeInfo::U32, Expr::BitXor { lhs: bx(arg(0)), rhs: bx(lit(Value::U32(0xffu32))) });
    assert_eq!(run(&compiled, vec![Value::U32(0xf0u32)]), Value::U32(0x0fu32));
}

#[test]
fn test_shift_left() {
    // |a: u32| -> u32 { a << 2 }
    let compiled = lambda(vec![TypeInfo::U32], TypeInfo::U32, Expr::Shl { lhs: bx(arg(0)), rhs: bx(lit(Value::U32(2))) });
    assert_eq!(run(&compiled, vec![Value::U32(3u32)]), Value::U32(12u32));
}

#[test]
fn test_shift_right() {
    // |a: u32| -> u32 { a >> 2 }
    let compiled = lambda(vec![TypeInfo::U32], TypeInfo::U32, Expr::Shr { lhs: bx(arg(0)), rhs: bx(lit(Value::U32(2))) });
    assert_eq!(run(&compiled, vec![Value::U32(12u32)]), Value::U32(3u32));
}

#[test]
fn test_returned_tuple_struct() {
    // struct Point2(bool, i32); |n: Point2| -> Point2 { n }
    let point2 = TypeInfo::Struct {
        name: "Point2".to_string(),
        fields: vec![
            FieldInfo { name: "0".to_string(), type_info: TypeInfo::Bool },
            FieldInfo { name: "1".to_string(), type_info: TypeInfo::I32 },
        ],
    };
    let compiled = lambda(vec![point2.clone()], point2, arg(0));
    let tup = Datum::Record(vec![
        ("0".to_string(), Datum::Scalar(Value::Bool(true))),
        ("1".to_string(), Datum::Scalar(Value::I32(10))),
    ]);
    let outcome = call(&compiled, &vec![], vec![tup], FUEL).unwrap();
    assert_eq!(
        outcome.result,
        Some(Datum::Record(vec![
            ("0".to_string(), Datum::Scalar(Value::Bool(true))),
            ("1".to_string(), Datum::Scalar(Value::I32(10))),
        ]))
    );
}

#[test]
fn test_returned_tuple() {
    // |n: (f32, f32)| -> (f32, f32) { n }
    let pair = TypeInfo::Struct {
        name: "(f32, f32)".to_string(),
        fields: vec![
            FieldInfo { name: "0".to_string(), type_info: TypeInfo::F32 },
            FieldInfo { name: "1".to_string(), type_info: TypeInfo::F32 },
        ],
    };
    let compiled = lambda(vec![pair.clone()], pair, arg(0));
    let tup = (20.0f32, 10.0f32);
    let argument = Datum::Record(vec![
        ("0".to_string(), Datum::Scalar(Value::F32(tup.0.to_bits()))),
        ("1".to_string(), Datum::Scalar(Value::F32(tup.1.to_bits()))),
    ]);
    let outcome = call(&compiled, &vec![], vec![argument], FUEL).unwrap();
    let returned = match outcome.result {
        Some(Datum::Record(fields)) => match (&fields[0].1, &fields[1].1) {
            (Datum::Scalar(Value::F32(a)), Datum::Scalar(Value::F32(b))) => (f32::from_bits(*a), f32::from_bits(*b)),
            other => panic!("unexpected fields {:?}", other),
        },
        other => panic!("unexpected result {:?}", other),
    };
    assert_eq!(returned, (20.0, 10.0));
}

#[test]
fn test_tuple_value() {
    // |x: i32, y: i32| -> (i32, i32) { (x, y) }
    let pair = TypeInfo::Struct {
        name: "(i32, i32)".to_string(),
        fields: vec![
            FieldInfo { name: "0".to_string(), type_info: TypeInfo::I32 },
            FieldInfo { name: "1".to_string(), type_info: TypeInfo::I32 },
        ],
    };
    let compiled = lambda(vec![TypeInfo::I32, TypeInfo::I32], pair, Expr::Tuple { elements: vec![arg(0), arg(1)] });
    let arguments = vec![Datum::Scalar(Value::I32(40)), Datum::Scalar(Value::I32(10))];
    let outcome = call(&compiled, &vec![], arguments, FUEL).unwrap();
    assert_eq!(
        outcome.result,
        Some(Datum::Record(vec![
            ("0".to_string(), Datum::Scalar(Value::I32(40))),
            ("1".to_string(), Datum::Scalar(Value::I32(10))),
        ]))
    );
}

#[test]
fn dynamic_invocation_add_i32() {
    // |x: i32, y: i32| -> i32 { x + y }, called with values built at run time
    let closure = lambda(vec![TypeInfo::I32, TypeInfo::I32], TypeInfo::I32, plus(arg(0), arg(1)));
    let arguments = vec![Datum::Scalar(Value::I32(10)), Datum::Scalar(Value::I32(20))];
    let outcome = call(&closure, &vec![], arguments, FUEL).expect("failed to invoke closure");
    assert_eq!(outcome.result, Some(Datum::Scalar(Value::I32(30))));
}

#[test]
fn print_quoted_expr() {
    // |x: i32| -> i32 { x }
    let expr = lambda(vec![TypeInfo::I32], TypeInfo::I32, arg(0));
    println!("expr is {:?}", expr);
}


#[test]
fn logical_operators_short_circuit() {
    // |x: i32| x != 0 && 10 / x > 1
    let nonzero = Expr::Ne { lhs: bx(arg(0)), rhs: bx(i32c(0)) };
    let quotient = Expr::Div { lhs: bx(i32c(10)), rhs: bx(arg(0)) };
    let compiled = lambda(vec![TypeInfo::I32], TypeInfo::Bool, both(nonzero, greater(quotient, i32c(1))));
    assert!(!run_bool(&compiled, vec![0]));
    assert!(run_bool(&compiled, vec![5]));
    assert!(!run_bool(&compiled, vec![10]));
    // |x: i32| x == 0 || 10 / x > 1
    let zero = equal(arg(0), i32c(0));
    let quotient = Expr::Div { lhs: bx(i32c(10)), rhs: bx(arg(0)) };
    let either = Expr::Or { lhs: bx(zero), rhs: bx(greater(quotient, i32c(1))) };
    let compiled = lambda(vec![TypeInfo::I32], TypeInfo::Bool, either);
    assert!(run_bool(&compiled, vec![0]));
    assert!(!run_bool(&compiled, vec![10]));
}
