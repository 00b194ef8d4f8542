use closure_ir::compiler::Compiler;
use closure_ir::lowering::{
    constant_plan, float_instruction, int_instruction, ConstantPlan, FloatInstruction, IntInstruction, LowerError,
};
use closure_ir::llvm::{FloatCompare, IntCompare};
use closure_ir::{BinaryOp, Block, Closure, Expr, FieldInfo, Statement, TypeError, TypeInfo, Value};
use inkwell::context::Context;

fn bx(e: Expr) -> Box<Expr> {
    Box::new(e)
}

fn closure(arguments: Vec<TypeInfo>, return_type: TypeInfo, body: Block) -> Closure {
    Closure { captures: vec![], arguments, return_type, body, external_functions: vec![] }
}

fn point() -> TypeInfo {
    TypeInfo::Struct {
        name: "Point".to_string(),
        fields: vec![
            FieldInfo { name: "x".to_string(), type_info: TypeInfo::F64 },
            FieldInfo { name: "y".to_string(), type_info: TypeInfo::F64 },
        ],
    }
}

fn rectangle() -> TypeInfo {
    TypeInfo::Struct {
        name: "Rectangle".to_string(),
        fields: vec![
            FieldInfo { name: "top_left".to_string(), type_info: point() },
            FieldInfo { name: "bottom_right".to_string(), type_info: point() },
        ],
    }
}

fn field(object: Expr, name: &str) -> Expr {
    Expr::Field { object: bx(object), name: name.to_string() }
}

#[test]
fn compiles_integer_arithmetic() {
    let context = Context::create();
    let compiler = Compiler::new(&context);
    let body = Expr::Sub {
        lhs: bx(Expr::Mul { lhs: bx(Expr::Argument(0)), rhs: bx(Expr::Constant(Value::I32(2))) }),
        rhs: bx(Expr::Constant(Value::I32(3))),
    };
    let compiled = compiler
        .compile(&closure(vec![TypeInfo::I32], TypeInfo::I32, Block::expression(body)))
        .expect("the closure compiles");
    assert_eq!(compiled.function_name, "compiled_closure");
    assert_eq!(compiled.arguments, vec![TypeInfo::I32]);
    assert_eq!(compiled.return_type, TypeInfo::I32);
}

#[test]
fn compiles_struct_field_access() {
    let context = Context::create();
    let compiler = Compiler::new(&context);
    let body = Expr::Sub {
        lhs: bx(field(field(Expr::Argument(0), "bottom_right"), "x")),
        rhs: bx(field(field(Expr::Argument(0), "top_left"), "x")),
    };
    let result = compiler.compile(&closure(vec![rectangle()], TypeInfo::F64, Block::expression(body)));
    assert!(result.is_ok());
}

#[test]
fn compiles_locals_loops_and_branches() {
    let context = Context::create();
    let compiler = Compiler::new(&context);
    // |x: i32| -> i32 { let mut value = x; while value < 10 { value = value + 1; } if value > 5 { value } else { 0 } }
    let body = Block {
        statements: vec![
            Statement::Let { local: 0, type_info: TypeInfo::I32, value: Expr::Argument(0), mutable: true },
            Statement::While {
                condition: Expr::Lt { lhs: bx(Expr::Argument(1)), rhs: bx(Expr::Constant(Value::I32(10))) },
                body: Block::statements(vec![Statement::Assign {
                    local: 0,
                    value: Expr::Add { lhs: bx(Expr::Argument(1)), rhs: bx(Expr::Constant(Value::I32(1))) },
                }]),
            },
        ],
        result: Some(Expr::IfElse {
            condition: bx(Expr::Gt { lhs: bx(Expr::Argument(1)), rhs: bx(Expr::Constant(Value::I32(5))) }),
            then_branch: bx(Expr::Argument(1)),
            else_branch: bx(Expr::Constant(Value::I32(0))),
        }),
    };
    assert!(compiler.compile(&closure(vec![TypeInfo::I32], TypeInfo::I32, body)).is_ok());
}

#[test]
fn compiles_wide_and_floating_constants() {
    let context = Context::create();
    let compiler = Compiler::new(&context);
    let wide = Expr::Add { lhs: bx(Expr::Argument(0)), rhs: bx(Expr::Constant(Value::I128(-100))) };
    assert!(compiler
        .compile(&closure(vec![TypeInfo::I128], TypeInfo::I128, Block::expression(wide)))
        .is_ok());
    let real = Expr::Add { lhs: bx(Expr::Argument(0)), rhs: bx(Expr::Constant(Value::F64(2.5f64.to_bits()))) };
    assert!(compiler.compile(&closure(vec![TypeInfo::F64], TypeInfo::F64, Block::expression(real))).is_ok());
}

#[test]
fn rejects_condition_that_is_not_bool() {
    let context = Context::create();
    let compiler = Compiler::new(&context);
    let body = Expr::IfElse {
        condition: bx(Expr::Argument(0)),
        then_branch: bx(Expr::Constant(Value::I32(1))),
        else_branch: bx(Expr::Constant(Value::I32(0))),
    };
    let result = compiler.compile(&closure(vec![TypeInfo::I32], TypeInfo::I32, Block::expression(body)));
    assert!(matches!(result, Err(LowerError::ConditionNotBool)));
}

#[test]
fn rejects_unsupported_expression_and_statement() {
    let context = Context::create();
    let compiler = Compiler::new(&context);
    let len = Expr::Len { sequence: bx(Expr::Argument(0)) };
    let result = compiler.compile(&closure(vec![TypeInfo::I32], TypeInfo::Usize, Block::expression(len)));
    assert!(matches!(result, Err(LowerError::UnsupportedExpression)));
    let body = Block {
        statements: vec![Statement::AssignIndex {
            sequence: Expr::Argument(0),
            index: Expr::Constant(Value::Usize(0)),
            value: Expr::Constant(Value::I32(1)),
        }],
        result: Some(Expr::Constant(Value::I32(0))),
    };
    let result = compiler.compile(&closure(vec![TypeInfo::I32], TypeInfo::I32, body));
    assert!(matches!(result, Err(LowerError::UnsupportedStatement)));
}

#[test]
fn rejects_array_arguments() {
    let context = Context::create();
    let compiler = Compiler::new(&context);
    let array = TypeInfo::Array { element: Box::new(TypeInfo::I32), length: 4 };
    let result = compiler.compile(&closure(vec![array], TypeInfo::I32, Block::expression(Expr::Constant(Value::I32(0)))));
    assert!(matches!(result, Err(LowerError::UnsupportedType)));
}

#[test]
fn rejects_wrong_local_and_missing_result() {
    let context = Context::create();
    let compiler = Compiler::new(&context);
    let body = Block {
        statements: vec![Statement::Let { local: 3, type_info: TypeInfo::I32, value: Expr::Argument(0), mutable: false }],
        result: Some(Expr::Argument(1)),
    };
    let result = compiler.compile(&closure(vec![TypeInfo::I32], TypeInfo::I32, body));
    assert!(matches!(result, Err(LowerError::InvalidLocal(3))));
    let result = compiler.compile(&closure(vec![TypeInfo::I32], TypeInfo::I32, Block::statements(vec![])));
    assert!(matches!(result, Err(LowerError::MissingResult)));
}

#[test]
fn rejects_result_of_another_type() {
    let context = Context::create();
    let compiler = Compiler::new(&context);
    let result = compiler.compile(&closure(vec![TypeInfo::I64], TypeInfo::I32, Block::expression(Expr::Argument(0))));
    assert!(matches!(result, Err(LowerError::ResultTypeMismatch)));
}

#[test]
fn rejects_mismatched_operands_and_float_logic() {
    let context = Context::create();
    let compiler = Compiler::new(&context);
    let mixed = Expr::Add { lhs: bx(Expr::Argument(0)), rhs: bx(Expr::Argument(1)) };
    let result = compiler.compile(&closure(vec![TypeInfo::I32, TypeInfo::I64], TypeInfo::I32, Block::expression(mixed)));
    assert!(matches!(result, Err(LowerError::Operands(TypeError::BinaryMismatch))));
    let xor = Expr::BitXor { lhs: bx(Expr::Argument(0)), rhs: bx(Expr::Argument(0)) };
    let result = compiler.compile(&closure(vec![TypeInfo::F64], TypeInfo::F64, Block::expression(xor)));
    assert!(matches!(result, Err(LowerError::FloatOperator)));
    let not = Expr::Not { operand: bx(Expr::Argument(0)) };
    let result = compiler.compile(&closure(vec![TypeInfo::F64], TypeInfo::F64, Block::expression(not)));
    assert!(matches!(result, Err(LowerError::NotOperand)));
}

#[test]
fn rejects_bad_field_access() {
    let context = Context::create();
    let compiler = Compiler::new(&context);
    let missing = field(Expr::Argument(0), "z");
    let result = compiler.compile(&closure(vec![point()], TypeInfo::F64, Block::expression(missing)));
    assert!(matches!(result, Err(LowerError::FieldNotFound(name)) if name == "z"));
    let scalar = field(Expr::Argument(0), "x");
    let result = compiler.compile(&closure(vec![TypeInfo::I32], TypeInfo::F64, Block::expression(scalar)));
    assert!(matches!(result, Err(LowerError::FieldOnNonStruct(name)) if name == "x"));
    let value = field(Expr::Constant(Value::I32(1)), "x");
    let result = compiler.compile(&closure(vec![], TypeInfo::F64, Block::expression(value)));
    assert!(matches!(result, Err(LowerError::FieldOnValue(name)) if name == "x"));
}

#[test]
fn selects_instructions_by_signedness() {
    assert_eq!(int_instruction(BinaryOp::Div, true), IntInstruction::UnsignedDiv);
    assert_eq!(int_instruction(BinaryOp::Div, false), IntInstruction::SignedDiv);
    assert_eq!(int_instruction(BinaryOp::Lt, true), IntInstruction::Compare(IntCompare::Ult));
    assert_eq!(int_instruction(BinaryOp::Ge, false), IntInstruction::Compare(IntCompare::Sge));
    assert_eq!(int_instruction(BinaryOp::Shr, false), IntInstruction::Shr { arithmetic: true });
    assert_eq!(int_instruction(BinaryOp::Shr, true), IntInstruction::Shr { arithmetic: false });
    assert_eq!(int_instruction(BinaryOp::And, true), IntInstruction::And);
    assert_eq!(float_instruction(BinaryOp::Ne), Some(FloatInstruction::Compare(FloatCompare::Une)));
    assert_eq!(float_instruction(BinaryOp::Rem), Some(FloatInstruction::Rem));
    assert_eq!(float_instruction(BinaryOp::Shl), None);
}

#[test]
fn plans_constants() {
    assert_eq!(
        constant_plan(&Value::I8(-7)),
        Some(ConstantPlan::Int { bits: 8, value: (-7i64) as u64, sign_extend: true })
    );
    assert_eq!(constant_plan(&Value::Bool(true)), Some(ConstantPlan::Int { bits: 1, value: 1, sign_extend: false }));
    assert_eq!(
        constant_plan(&Value::I128(-2)),
        Some(ConstantPlan::Wide { low: u64::MAX - 1, high: u64::MAX })
    );
    assert_eq!(
        constant_plan(&Value::U128((5u128 << 64) + 9)),
        Some(ConstantPlan::Wide { low: 9, high: 5 })
    );
    assert_eq!(
        constant_plan(&Value::F32(1.5f32.to_bits())),
        Some(ConstantPlan::Float { bits: 32, raw: 1.5f32.to_bits() as u64 })
    );
    assert_eq!(constant_plan(&Value::Array(vec![Value::I32(1)])), None);
}

fn nested() -> TypeInfo {
    TypeInfo::Struct {
        name: "Nested".to_string(),
        fields: vec![
            FieldInfo { name: "r".to_string(), type_info: rectangle() },
            FieldInfo { name: "p".to_string(), type_info: point() },
        ],
    }
}

fn compiles(arguments: Vec<TypeInfo>, return_type: TypeInfo, body: Expr) -> bool {
    let context = Context::create();
    let compiler = Compiler::new(&context);
    let lowered = compiler.compile(&closure(arguments, return_type, Block::expression(body))).is_ok();
    lowered
}

#[test]
fn compiles_floating_point_scenarios() {
    let x = || bx(Expr::Argument(0));
    let y = || bx(Expr::Argument(1));
    // x + y on f32 and f64; x % y; -x; x < y.
    assert!(compiles(vec![TypeInfo::F32, TypeInfo::F32], TypeInfo::F32, Expr::Add { lhs: x(), rhs: y() }));
    assert!(compiles(vec![TypeInfo::F64, TypeInfo::F64], TypeInfo::F64, Expr::Add { lhs: x(), rhs: y() }));
    assert!(compiles(vec![TypeInfo::F64, TypeInfo::F64], TypeInfo::F64, Expr::Rem { lhs: x(), rhs: y() }));
    assert!(compiles(vec![TypeInfo::F64], TypeInfo::F64, Expr::Neg { operand: x() }));
    assert!(compiles(vec![TypeInfo::F64, TypeInfo::F64], TypeInfo::Bool, Expr::Lt { lhs: x(), rhs: y() }));
    assert!(compiles(vec![TypeInfo::F64, TypeInfo::F64], TypeInfo::Bool, Expr::Ne { lhs: x(), rhs: y() }));
    // if x > 10.0 { x } else { 21.0 } on f32.
    let ten = Expr::Constant(Value::F32(10.0f32.to_bits()));
    let other = Expr::Constant(Value::F32(21.0f32.to_bits()));
    let body = Expr::IfElse {
        condition: bx(Expr::Gt { lhs: x(), rhs: bx(ten) }),
        then_branch: x(),
        else_branch: bx(other),
    };
    assert!(compiles(vec![TypeInfo::F32], TypeInfo::F32, body));
}

#[test]
fn compiles_nested_struct_field_arithmetic() {
    // |n: Nested| n.r.bottom_right.x - n.p.x
    let body = Expr::Sub {
        lhs: bx(field(field(field(Expr::Argument(0), "r"), "bottom_right"), "x")),
        rhs: bx(field(field(Expr::Argument(0), "p"), "x")),
    };
    assert!(compiles(vec![nested()], TypeInfo::F64, body));
    // |r: Rectangle| r.bottom_right.x - r.top_left.x
    let body = Expr::Sub {
        lhs: bx(field(field(Expr::Argument(0), "bottom_right"), "x")),
        rhs: bx(field(field(Expr::Argument(0), "top_left"), "x")),
    };
    assert!(compiles(vec![rectangle()], TypeInfo::F64, body));
}

#[test]
fn rejects_arithmetic_on_structs() {
    let context = Context::create();
    let compiler = Compiler::new(&context);
    let sum = Expr::Add { lhs: bx(Expr::Argument(0)), rhs: bx(Expr::Argument(0)) };
    let result = compiler.compile(&closure(vec![point()], point(), Block::expression(sum)));
    assert!(matches!(result, Err(LowerError::Operands(TypeError::UnsupportedOperand))));
}
