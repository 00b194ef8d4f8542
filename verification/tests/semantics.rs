use closure_ir::scalar::{one_like, scalar_binary, scalar_cast, scalar_unary};
use closure_ir::{call, BinaryOp, Block, Closure, Datum, EvalError, Expr, Statement, TypeInfo, UnaryOp, Value};

const FUEL: u64 = 1_000;

fn bx(e: Expr) -> Box<Expr> {
    Box::new(e)
}

fn lambda(arguments: Vec<TypeInfo>, return_type: TypeInfo, body: Block) -> Closure {
    Closure { captures: vec![], arguments, return_type, body, external_functions: vec![] }
}

fn scalar(v: Value) -> Datum {
    Datum::Scalar(v)
}

#[test]
fn addition_wraps_and_subtraction_undoes_it() {
    let sum = scalar_binary(BinaryOp::Add, &Value::I8(100), &Value::I8(100)).unwrap();
    assert_eq!(sum, Value::I8(-56));
    assert_eq!(scalar_binary(BinaryOp::Sub, &sum, &Value::I8(100)), Ok(Value::I8(100)));
    let sum = scalar_binary(BinaryOp::Add, &Value::U32(u32::MAX), &Value::U32(2)).unwrap();
    assert_eq!(sum, Value::U32(1));
    assert_eq!(scalar_binary(BinaryOp::Sub, &sum, &Value::U32(2)), Ok(Value::U32(u32::MAX)));
}

#[test]
fn division_faults_and_shift_ranges() {
    assert_eq!(scalar_binary(BinaryOp::Div, &Value::I32(1), &Value::I32(0)), Err(EvalError::DivisionFault));
    assert_eq!(scalar_binary(BinaryOp::Div, &Value::I32(i32::MIN), &Value::I32(-1)), Err(EvalError::DivisionFault));
    assert_eq!(scalar_binary(BinaryOp::Rem, &Value::U8(7), &Value::U8(0)), Err(EvalError::DivisionFault));
    assert_eq!(scalar_binary(BinaryOp::Div, &Value::I32(-7), &Value::I32(2)), Ok(Value::I32(-3)));
    assert_eq!(scalar_binary(BinaryOp::Rem, &Value::I32(-7), &Value::I32(2)), Ok(Value::I32(-1)));
    assert_eq!(scalar_binary(BinaryOp::Shl, &Value::U8(1), &Value::U8(8)), Err(EvalError::ShiftOutOfRange));
    assert_eq!(scalar_binary(BinaryOp::Shr, &Value::I16(-8), &Value::I16(1)), Ok(Value::I16(-4)));
}

#[test]
fn operands_must_share_a_type() {
    assert_eq!(scalar_binary(BinaryOp::Add, &Value::I32(1), &Value::I64(1)), Err(EvalError::TypeMismatch));
    assert_eq!(scalar_binary(BinaryOp::And, &Value::I32(1), &Value::I32(1)), Err(EvalError::TypeMismatch));
    assert_eq!(
        scalar_binary(BinaryOp::Add, &Value::F64(1.0f64.to_bits()), &Value::F64(1.0f64.to_bits())),
        Err(EvalError::Unsupported)
    );
    assert_eq!(scalar_binary(BinaryOp::Or, &Value::Bool(false), &Value::Bool(true)), Ok(Value::Bool(true)));
}

#[test]
fn comparisons_give_bools() {
    assert_eq!(scalar_binary(BinaryOp::Lt, &Value::U64(3), &Value::U64(4)), Ok(Value::Bool(true)));
    assert_eq!(scalar_binary(BinaryOp::Ge, &Value::I128(-3), &Value::I128(4)), Ok(Value::Bool(false)));
    assert_eq!(scalar_binary(BinaryOp::Ne, &Value::Usize(4), &Value::Usize(4)), Ok(Value::Bool(false)));
    // `bool` orders `false < true`, as in Rust.
    assert_eq!(scalar_binary(BinaryOp::Lt, &Value::Bool(true), &Value::Bool(false)), Ok(Value::Bool(false)));
    assert_eq!(scalar_binary(BinaryOp::Lt, &Value::Bool(false), &Value::Bool(true)), Ok(Value::Bool(true)));
    assert_eq!(scalar_binary(BinaryOp::Ge, &Value::Bool(true), &Value::Bool(false)), Ok(Value::Bool(true)));
}

#[test]
fn unary_operators() {
    assert_eq!(scalar_unary(UnaryOp::Neg, &Value::I8(i8::MIN)), Ok(Value::I8(i8::MIN)));
    assert_eq!(scalar_unary(UnaryOp::Not, &Value::U8(0x0f)), Ok(Value::U8(0xf0)));
    assert_eq!(scalar_unary(UnaryOp::Not, &Value::Bool(true)), Ok(Value::Bool(false)));
}

#[test]
fn casts_wrap_and_round_trip() {
    assert_eq!(scalar_cast(&Value::I64(257), &TypeInfo::I8), Ok(Value::I8(1)));
    assert_eq!(scalar_cast(&Value::I8(-1), &TypeInfo::U16), Ok(Value::U16(u16::MAX)));
    let wide = scalar_cast(&Value::I16(-300), &TypeInfo::I128).unwrap();
    assert_eq!(scalar_cast(&wide, &TypeInfo::I16), Ok(Value::I16(-300)));
    assert_eq!(scalar_cast(&Value::Bool(true), &TypeInfo::I32), Ok(Value::I32(1)));
    assert_eq!(scalar_cast(&Value::F32(0), &TypeInfo::I32), Err(EvalError::Unsupported));
    assert_eq!(one_like(&Value::U16(9)), Some(Value::U16(1)));
    assert_eq!(one_like(&Value::Bool(true)), None);
}

#[test]
fn let_then_read_back() {
    // |x: i32| -> i32 { let y = x * 3; y }
    let body = Block {
        statements: vec![Statement::Let {
            local: 0,
            type_info: TypeInfo::I32,
            value: Expr::Mul { lhs: bx(Expr::Argument(0)), rhs: bx(Expr::Constant(Value::I32(3))) },
            mutable: false,
        }],
        result: Some(Expr::Argument(1)),
    };
    let outcome = call(&lambda(vec![TypeInfo::I32], TypeInfo::I32, body), &vec![], vec![scalar(Value::I32(5))], FUEL).unwrap();
    assert_eq!(outcome.result, Some(scalar(Value::I32(15))));
    assert_eq!(outcome.arguments, vec![scalar(Value::I32(5))]);
}

#[test]
fn assignment_to_an_argument_is_visible_after_the_call() {
    // |x: i32| { x = x + 1; }
    let body = Block::statements(vec![Statement::Assign {
        local: 0,
        value: Expr::Add { lhs: bx(Expr::Argument(0)), rhs: bx(Expr::Constant(Value::I32(1))) },
    }]);
    let compiled = lambda(vec![TypeInfo::I32], TypeInfo::Struct { name: "()".to_string(), fields: vec![] }, body);
    // Argument slots are reached through a local index past the arguments, so
    // an assignment to local 0 of a closure with one argument is out of range.
    assert_eq!(
        call(&compiled, &vec![], vec![scalar(Value::I32(1))], FUEL).err(),
        Some(EvalError::InvalidLocal(0))
    );
}

#[test]
fn indexed_write_then_read() {
    // |v: &mut [u8]| -> u8 { v[1] = 9; v[1] + v[0] }
    let slice = TypeInfo::Slice { element: Box::new(TypeInfo::U8) };
    let index = |i: usize| Expr::Index { sequence: bx(Expr::Argument(0)), index: bx(Expr::Constant(Value::Usize(i))) };
    let body = Block {
        statements: vec![Statement::AssignIndex {
            sequence: Expr::Argument(0),
            index: Expr::Constant(Value::Usize(1)),
            value: Expr::Constant(Value::U8(9)),
        }],
        result: Some(Expr::Add { lhs: bx(index(1)), rhs: bx(index(0)) }),
    };
    let values = Datum::Sequence(vec![scalar(Value::U8(4)), scalar(Value::U8(0)), scalar(Value::U8(7))]);
    let outcome = call(&lambda(vec![slice], TypeInfo::U8, body), &vec![], vec![values], FUEL).unwrap();
    assert_eq!(outcome.result, Some(scalar(Value::U8(13))));
    assert_eq!(
        outcome.arguments,
        vec![Datum::Sequence(vec![scalar(Value::U8(4)), scalar(Value::U8(9)), scalar(Value::U8(7))])]
    );
}

#[test]
fn indexed_write_out_of_bounds_fails() {
    let slice = TypeInfo::Slice { element: Box::new(TypeInfo::U8) };
    let body = Block::statements(vec![Statement::AssignIndex {
        sequence: Expr::Argument(0),
        index: Expr::Constant(Value::Usize(3)),
        value: Expr::Constant(Value::U8(9)),
    }]);
    let values = Datum::Sequence(vec![scalar(Value::U8(4))]);
    let compiled = lambda(vec![slice], TypeInfo::Struct { name: "()".to_string(), fields: vec![] }, body);
    assert_eq!(call(&compiled, &vec![], vec![values], FUEL).err(), Some(EvalError::IndexOutOfBounds));
}

#[test]
fn while_loop_stops_when_its_condition_is_false() {
    // |x: u32| -> u32 { let mut v = x; while v < 100 { v = v * 2; } v }
    let body = Block {
        statements: vec![
            Statement::Let { local: 0, type_info: TypeInfo::U32, value: Expr::Argument(0), mutable: true },
            Statement::While {
                condition: Expr::Lt { lhs: bx(Expr::Argument(1)), rhs: bx(Expr::Constant(Value::U32(100))) },
                body: Block::statements(vec![Statement::Assign {
                    local: 0,
                    value: Expr::Mul { lhs: bx(Expr::Argument(1)), rhs: bx(Expr::Constant(Value::U32(2))) },
                }]),
            },
        ],
        result: Some(Expr::Argument(1)),
    };
    let compiled = lambda(vec![TypeInfo::U32], TypeInfo::U32, body);
    let outcome = call(&compiled, &vec![], vec![scalar(Value::U32(3))], FUEL).unwrap();
    assert_eq!(outcome.result, Some(scalar(Value::U32(192))));
    assert_eq!(call(&compiled, &vec![], vec![scalar(Value::U32(3))], 3).err(), Some(EvalError::OutOfFuel));
}

#[test]
fn for_loop_counter_is_a_local_of_the_body() {
    // || -> u8 { let mut total = 0u8; for i in 250u8..=255u8 { total = total + 1; } total }
    let body = Block {
        statements: vec![
            Statement::Let { local: 0, type_info: TypeInfo::U8, value: Expr::Constant(Value::U8(0)), mutable: true },
            Statement::For {
                local: 1,
                type_info: TypeInfo::U8,
                start: Expr::Constant(Value::U8(250)),
                end: Expr::Constant(Value::U8(255)),
                inclusive: true,
                body: Block::statements(vec![Statement::Assign {
                    local: 0,
                    value: Expr::Add { lhs: bx(Expr::Argument(0)), rhs: bx(Expr::Constant(Value::U8(1))) },
                }]),
            },
        ],
        result: Some(Expr::Argument(0)),
    };
    let outcome = call(&lambda(vec![], TypeInfo::U8, body), &vec![], vec![], FUEL).unwrap();
    assert_eq!(outcome.result, Some(scalar(Value::U8(6))));
}

#[test]
fn arity_and_argument_errors() {
    let compiled = lambda(vec![TypeInfo::I32], TypeInfo::I32, Block::expression(Expr::Argument(0)));
    assert_eq!(call(&compiled, &vec![], vec![], FUEL).err(), Some(EvalError::ArityMismatch));
    let compiled = lambda(vec![], TypeInfo::I32, Block::expression(Expr::Argument(2)));
    assert_eq!(call(&compiled, &vec![], vec![], FUEL).err(), Some(EvalError::ArgumentOutOfBounds(2)));
    let compiled = lambda(vec![], TypeInfo::I32, Block::expression(Expr::Capture(0)));
    assert_eq!(call(&compiled, &vec![], vec![], FUEL).err(), Some(EvalError::CaptureOutOfBounds(0)));
}

#[test]
fn struct_literals_and_fields() {
    let point = TypeInfo::Struct { name: "P".to_string(), fields: vec![] };
    let literal = Expr::Struct {
        type_info: point.clone(),
        fields: vec![("x".to_string(), Expr::Constant(Value::I32(3))), ("y".to_string(), Expr::Argument(0))],
    };
    let body = Block::expression(Expr::Field { object: bx(literal), name: "y".to_string() });
    let outcome = call(&lambda(vec![TypeInfo::I32], TypeInfo::I32, body), &vec![], vec![scalar(Value::I32(8))], FUEL).unwrap();
    assert_eq!(outcome.result, Some(scalar(Value::I32(8))));
    let missing = Expr::Field { object: bx(Expr::Argument(0)), name: "z".to_string() };
    let record = Datum::Record(vec![("x".to_string(), scalar(Value::I32(1)))]);
    let compiled = lambda(vec![point], TypeInfo::I32, Block::expression(missing));
    assert_eq!(
        call(&compiled, &vec![], vec![record], FUEL).err(),
        Some(EvalError::FieldNotFound("z".to_string()))
    );
}

#[test]
fn array_constants_and_lengths() {
    let array = Expr::Constant(Value::Array(vec![Value::I16(5), Value::I16(6), Value::I16(7)]));
    let len = Expr::Len { sequence: bx(array) };
    let outcome = call(&lambda(vec![], TypeInfo::Usize, Block::expression(len)), &vec![], vec![], FUEL).unwrap();
    assert_eq!(outcome.result, Some(scalar(Value::Usize(3))));
}
