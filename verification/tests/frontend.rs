use closure_ir::bytes::{value_from_bytes, value_to_bytes};
use closure_ir::frontend::{
    integer_type_of_name, intrinsic_for_name, intrinsic_name, lower_call, lower_integer_literal, lower_path, ClosureArgument,
    FrontendError, LocalVariable,
};
use closure_ir::text::{contains_char, same_text};
use closure_ir::{Expr, Intrinsic, TypeInfo, Value};

fn argument(name: &str, capture: bool) -> ClosureArgument {
    ClosureArgument { name: name.to_string(), capture }
}

fn local(name: &str, index: usize) -> LocalVariable {
    LocalVariable { name: name.to_string(), index }
}

#[test]
fn maps_intrinsic_names() {
    assert_eq!(intrinsic_for_name("sqrt"), Some((Intrinsic::Sqrt, 1)));
    assert_eq!(intrinsic_for_name("pow"), Some((Intrinsic::Pow, 2)));
    assert_eq!(intrinsic_for_name("hypot"), None);
    assert_eq!(lower_call("max", 2), Ok(Intrinsic::Max));
    assert_eq!(
        lower_call("max", 1),
        Err(FrontendError::IntrinsicArity { name: "max".to_string(), expected: 2 })
    );
    assert_eq!(lower_call("hypot", 2), Err(FrontendError::UnsupportedIntrinsic("hypot".to_string())));
}

#[test]
fn types_integer_literals() {
    assert_eq!(lower_integer_literal("5", "", None), Ok(Value::I32(5)));
    assert_eq!(lower_integer_literal("100", "i128", None), Ok(Value::I128(100)));
    assert_eq!(lower_integer_literal("250", "", Some("u8")), Ok(Value::U8(250)));
    assert_eq!(lower_integer_literal("256", "", Some("u8")), Err(FrontendError::LiteralOutOfRange));
    assert_eq!(lower_integer_literal("128", "i8", None), Err(FrontendError::LiteralOutOfRange));
    assert_eq!(lower_integer_literal("127", "i8", Some("u64")), Ok(Value::I8(127)));
    assert_eq!(lower_integer_literal("1", "", Some("f64")), Err(FrontendError::UninferableLiteralType));
    assert_eq!(lower_integer_literal("1", "u7", None), Err(FrontendError::UnsupportedLiteral));
    assert_eq!(lower_integer_literal("1x", "", None), Err(FrontendError::InvalidDigits));
    assert_eq!(lower_integer_literal("", "", None), Err(FrontendError::InvalidDigits));
    assert_eq!(
        lower_integer_literal("340282366920938463463374607431768211455", "u128", None),
        Ok(Value::U128(u128::MAX))
    );
    assert_eq!(
        lower_integer_literal("340282366920938463463374607431768211456", "u128", None),
        Err(FrontendError::LiteralOutOfRange)
    );
    assert_eq!(integer_type_of_name("usize"), Some(TypeInfo::Usize));
}

#[test]
fn resolves_names() {
    let arguments = vec![argument("x", false), argument("scale", true), argument("y", false), argument("offset", true)];
    let locals = vec![local("sum", 0), local("i", 1), local("sum", 2)];
    assert_eq!(lower_path("y", &arguments, &locals), Ok(Expr::Argument(1)));
    assert_eq!(lower_path("offset", &arguments, &locals), Ok(Expr::Capture(1)));
    assert_eq!(lower_path("sum", &arguments, &locals), Ok(Expr::Argument(4)));
    assert_eq!(lower_path("i", &arguments, &locals), Ok(Expr::Argument(3)));
    assert_eq!(lower_path("z", &arguments, &locals), Err(FrontendError::UnknownName("z".to_string())));
}

#[test]
fn a_local_shadows_an_argument() {
    // `|x: i32| { let x = x + 1; x }`: the body's `x` is the local.
    let arguments = vec![argument("x", false)];
    assert_eq!(lower_path("x", &arguments, &[]), Ok(Expr::Argument(0)));
    assert_eq!(lower_path("x", &arguments, &[local("x", 0)]), Ok(Expr::Argument(1)));
}

#[test]
fn encodes_and_decodes_scalars() {
    assert_eq!(value_to_bytes(&Value::I16(-2)), Some(vec![0xfe, 0xff]));
    assert_eq!(value_to_bytes(&Value::U32(0x0102_0304)), Some(vec![4, 3, 2, 1]));
    assert_eq!(value_to_bytes(&Value::Bool(true)), Some(vec![1]));
    assert_eq!(value_to_bytes(&Value::F32(1.0f32.to_bits())), Some(1.0f32.to_le_bytes().to_vec()));
    assert_eq!(value_to_bytes(&Value::Array(vec![])), None);
    assert_eq!(value_from_bytes(&[0xfe, 0xff], &TypeInfo::I16), Some(Value::I16(-2)));
    assert_eq!(value_from_bytes(&[1, 0, 0, 0, 0, 0, 0, 0], &TypeInfo::Usize), Some(Value::Usize(1)));
    assert_eq!(value_from_bytes(&[1, 0], &TypeInfo::I32), None);
    for value in [Value::I8(-7), Value::U64(u64::MAX - 3), Value::I128(i128::MIN), Value::F64(2.5f64.to_bits())] {
        let bytes = value_to_bytes(&value).unwrap();
        let type_info = match value {
            Value::I8(_) => TypeInfo::I8,
            Value::U64(_) => TypeInfo::U64,
            Value::I128(_) => TypeInfo::I128,
            _ => TypeInfo::F64,
        };
        assert_eq!(value_from_bytes(&bytes, &type_info), Some(value));
    }
}

#[test]
fn compares_text() {
    assert!(same_text("abc", "abc"));
    assert!(!same_text("abc", "abd"));
    assert!(!same_text("ab", "abc"));
    assert!(contains_char("2.5", '.'));
    assert!(!contains_char("25", '.'));
}

#[test]
fn intrinsic_names_are_unqualified() {
    assert_eq!(intrinsic_name(&["sqrt".to_string()]), Ok("sqrt".to_string()));
    assert_eq!(intrinsic_name(&["f64".to_string(), "sqrt".to_string()]), Err(FrontendError::QualifiedIntrinsic));
    assert_eq!(intrinsic_name(&[]), Err(FrontendError::QualifiedIntrinsic));
}
