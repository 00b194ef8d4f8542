use closure_ir::decimal::decimal_string;
use closure_ir::types::{same_type, type_info_of, CompileType};
use closure_ir::typing::{binary_operand_type, constant_type, expression_type, expression_type_with_captures};
use closure_ir::{BinaryOp, Expr, ExternalFunction, FieldInfo, Intrinsic, TypeError, TypeInfo, Value};

fn bx(e: Expr) -> Box<Expr> {
    Box::new(e)
}

#[test]
fn classifies_types() {
    assert!(TypeInfo::F32.is_float());
    assert!(!TypeInfo::I32.is_float());
    assert!(TypeInfo::I128.is_signed_integer());
    assert!(TypeInfo::Usize.is_unsigned_integer());
    assert!(TypeInfo::Bool.is_integer());
    assert!(TypeInfo::Bool.is_bool());
    assert!(!TypeInfo::Bool.is_numeric());
    assert!(TypeInfo::F64.is_numeric());
    let slice = TypeInfo::Slice { element: Box::new(TypeInfo::U8) };
    assert_eq!(slice.indexed_element_type(), Some(&TypeInfo::U8));
    assert!(slice.is_indexable());
    assert_eq!(TypeInfo::U8.indexed_element_type(), None);
    assert!(!TypeInfo::U8.is_indexable());
}

#[test]
fn compares_types_structurally() {
    let a = TypeInfo::Array { element: Box::new(TypeInfo::I32), length: 3 };
    let b = TypeInfo::Array { element: Box::new(TypeInfo::I32), length: 4 };
    assert!(same_type(&a, &a));
    assert!(!same_type(&a, &b));
}

#[test]
fn types_of_constants() {
    assert_eq!(constant_type(&Value::U16(1)), Ok(TypeInfo::U16));
    assert_eq!(
        constant_type(&Value::Array(vec![Value::I8(1), Value::I8(2)])),
        Ok(TypeInfo::Array { element: Box::new(TypeInfo::I8), length: 2 })
    );
    assert_eq!(constant_type(&Value::Array(vec![])), Err(TypeError::EmptyArrayConstant));
}

#[test]
fn types_of_expressions() {
    let args = [TypeInfo::I32, TypeInfo::Slice { element: Box::new(TypeInfo::F64) }];
    let sum = Expr::Add { lhs: bx(Expr::Argument(0)), rhs: bx(Expr::Constant(Value::I32(1))) };
    assert_eq!(expression_type(&args, &sum), Ok(TypeInfo::I32));
    let element = Expr::Index { sequence: bx(Expr::Argument(1)), index: bx(Expr::Constant(Value::Usize(0))) };
    assert_eq!(expression_type(&args, &element), Ok(TypeInfo::F64));
    let bad_index = Expr::Index { sequence: bx(Expr::Argument(1)), index: bx(Expr::Argument(0)) };
    assert_eq!(expression_type(&args, &bad_index), Err(TypeError::IndexNotUsize));
    assert_eq!(expression_type(&args, &Expr::Argument(5)), Err(TypeError::ArgumentOutOfBounds(5)));
    let comparison = Expr::Lt { lhs: bx(Expr::Argument(0)), rhs: bx(Expr::Argument(0)) };
    assert_eq!(expression_type(&args, &comparison), Ok(TypeInfo::Bool));
    let captured = Expr::Capture(0);
    assert_eq!(expression_type_with_captures(&[TypeInfo::U64], &args, &captured), Ok(TypeInfo::U64));
    assert_eq!(expression_type(&args, &captured), Err(TypeError::CaptureOutOfBounds(0)));
}

#[test]
fn types_of_intrinsics_and_calls() {
    let args = [TypeInfo::F64, TypeInfo::I32];
    let root = Expr::Intrinsic { intrinsic: Intrinsic::Sqrt, arguments: vec![Expr::Argument(0)] };
    assert_eq!(expression_type(&args, &root), Ok(TypeInfo::F64));
    let wrong = Expr::Intrinsic { intrinsic: Intrinsic::Sqrt, arguments: vec![Expr::Argument(1)] };
    assert_eq!(expression_type(&args, &wrong), Err(TypeError::IntrinsicNotFloat(Intrinsic::Sqrt)));
    let arity = Expr::Intrinsic { intrinsic: Intrinsic::Pow, arguments: vec![Expr::Argument(0)] };
    assert_eq!(
        expression_type(&args, &arity),
        Err(TypeError::IntrinsicArity { intrinsic: Intrinsic::Pow, expected: 2, given: 1 })
    );
    let external = Expr::ExternalCall { function: "f".to_string(), arguments: vec![], return_type: TypeInfo::U8 };
    assert_eq!(expression_type(&args, &external), Ok(TypeInfo::U8));
}

#[test]
fn types_of_tuples_and_struct_literals() {
    let pair = Expr::Tuple { elements: vec![Expr::Constant(Value::I8(1)), Expr::Constant(Value::Bool(true))] };
    assert_eq!(
        expression_type(&[], &pair),
        Ok(TypeInfo::Struct {
            name: "tuple".to_string(),
            fields: vec![
                FieldInfo { name: "0".to_string(), type_info: TypeInfo::I8 },
                FieldInfo { name: "1".to_string(), type_info: TypeInfo::Bool },
            ],
        })
    );
    let declared = TypeInfo::Struct {
        name: "P".to_string(),
        fields: vec![FieldInfo { name: "x".to_string(), type_info: TypeInfo::I32 }],
    };
    let literal = Expr::Struct { type_info: declared.clone(), fields: vec![("x".to_string(), Expr::Constant(Value::I32(0)))] };
    assert_eq!(expression_type(&[], &literal), Ok(declared.clone()));
    let wrong = Expr::Struct { type_info: declared, fields: vec![("x".to_string(), Expr::Constant(Value::U32(0)))] };
    assert_eq!(expression_type(&[], &wrong), Err(TypeError::StructFieldType("x".to_string())));
}

#[test]
fn operand_types_of_binary_operators() {
    let args = [TypeInfo::I32, TypeInfo::Bool, TypeInfo::I64];
    let (i, b, l) = (Expr::Argument(0), Expr::Argument(1), Expr::Argument(2));
    assert_eq!(binary_operand_type(&args, &i, &i, &TypeInfo::Bool, &BinaryOp::Lt), Ok(TypeInfo::I32));
    assert_eq!(binary_operand_type(&args, &i, &l, &TypeInfo::Bool, &BinaryOp::Lt), Err(TypeError::ComparisonMismatch));
    assert_eq!(binary_operand_type(&args, &b, &b, &TypeInfo::Bool, &BinaryOp::And), Ok(TypeInfo::Bool));
    assert_eq!(binary_operand_type(&args, &i, &b, &TypeInfo::Bool, &BinaryOp::Or), Err(TypeError::LogicalNotBool));
    assert_eq!(binary_operand_type(&args, &i, &l, &TypeInfo::I32, &BinaryOp::Add), Err(TypeError::BinaryMismatch));
}

#[test]
fn describes_rust_types() {
    assert_eq!(<u16 as CompileType>::type_info(), TypeInfo::U16);
    assert_eq!(<[i8; 3] as CompileType>::type_info(), TypeInfo::Array { element: Box::new(TypeInfo::I8), length: 3 });
    assert_eq!(<&[bool] as CompileType>::type_info(), TypeInfo::Slice { element: Box::new(TypeInfo::Bool) });
    assert_eq!(<() as CompileType>::type_info(), TypeInfo::Struct { name: "()".to_string(), fields: vec![] });
    assert_eq!(
        <(u8, i64) as CompileType>::type_info(),
        TypeInfo::Struct {
            name: "(A, B,)".to_string(),
            fields: vec![
                FieldInfo { name: "0".to_string(), type_info: TypeInfo::U8 },
                FieldInfo { name: "1".to_string(), type_info: TypeInfo::I64 },
            ],
        }
    );
    assert_eq!(type_info_of(|| 5usize), TypeInfo::Usize);
}

#[test]
fn writes_decimals_and_external_functions() {
    assert_eq!(decimal_string(0), "0");
    assert_eq!(decimal_string(1234567), "1234567");
    let f = ExternalFunction::new("sqrt", vec![TypeInfo::I32], TypeInfo::I32);
    assert_eq!(f.name, "sqrt");
    assert_eq!(f.arguments, vec![TypeInfo::I32]);
}
