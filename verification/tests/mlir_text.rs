use closure_ir::mlir::MlirBuilder;
use closure_ir::{Block, Closure, Expr, FieldInfo, TypeInfo};

fn empty_closure() -> Closure {
    Closure {
        captures: vec![],
        arguments: vec![TypeInfo::I32],
        return_type: TypeInfo::I32,
        body: Block::expression(Expr::Argument(0)),
        external_functions: vec![],
    }
}

#[test]
fn names_values_and_blocks() {
    let closure = empty_closure();
    let mut builder = MlirBuilder::new("f", &closure, false);
    assert_eq!(builder.value(), "%v0");
    assert_eq!(builder.value(), "%v1");
    assert_eq!(builder.block("loop"), "loop_0");
    assert_eq!(builder.block("exit"), "exit_1");
    assert_eq!(builder.text, "");
}

#[test]
fn writes_types() {
    assert_eq!(MlirBuilder::ty(&TypeInfo::U16), "i16");
    assert_eq!(MlirBuilder::ty(&TypeInfo::Usize), "i64");
    assert_eq!(MlirBuilder::ty(&TypeInfo::Bool), "i1");
    assert_eq!(MlirBuilder::ty(&TypeInfo::Slice { element: Box::new(TypeInfo::F32) }), "!llvm.struct<(ptr, i64)>");
    assert_eq!(
        MlirBuilder::ty(&TypeInfo::Array { element: Box::new(TypeInfo::I8), length: 12 }),
        "!llvm.array<12 x i8>"
    );
    let pair = TypeInfo::Struct {
        name: "pair".to_string(),
        fields: vec![
            FieldInfo { name: "a".to_string(), type_info: TypeInfo::I32 },
            FieldInfo { name: "b".to_string(), type_info: TypeInfo::F64 },
            FieldInfo { name: "c".to_string(), type_info: TypeInfo::Bool },
        ],
    };
    assert_eq!(MlirBuilder::ty(&pair), "!llvm.struct<(i32, f64, i1)>");
}

#[test]
fn writes_constants() {
    let closure = empty_closure();
    let mut builder = MlirBuilder::new("f", &closure, false);
    builder.one();
    builder.c_i64(-42);
    builder.c_bool(true);
    builder.c_int("7", "i8");
    builder.c_real("2", "f64");
    builder.c_real("2.5e3", "f32");
    assert_eq!(
        builder.text,
        "    %v0 = llvm.mlir.constant(1 : i64) : i64\n\
         \x20   %v1 = llvm.mlir.constant(-42 : i64) : i64\n\
         \x20   %v2 = llvm.mlir.constant(1 : i1) : i1\n\
         \x20   %v3 = llvm.mlir.constant(7 : i8) : i8\n\
         \x20   %v4 = llvm.mlir.constant(2.0 : f64) : f64\n\
         \x20   %v5 = llvm.mlir.constant(2.5e3 : f32) : f32\n"
    );
}

#[test]
fn writes_memory_operations() {
    let closure = empty_closure();
    let mut builder = MlirBuilder::new("f", &closure, false);
    let slot = builder.alloca(&TypeInfo::I64);
    assert_eq!(slot, "%v1");
    builder.store("%x", &slot, &TypeInfo::I64);
    let loaded = builder.load(&slot, &TypeInfo::I64);
    assert_eq!(loaded, "%v2");
    let element = builder.gep_const("%args", &TypeInfo::I32, &[0, 3]);
    assert_eq!(element, "%v3");
    builder.gep_array_dynamic("%a", &TypeInfo::I8, "%i");
    builder.gep_dynamic("%s", &TypeInfo::U8, "%j");
    assert_eq!(
        builder.text,
        "    %v0 = llvm.mlir.constant(1 : i64) : i64\n\
         \x20   %v1 = llvm.alloca %v0 x i64 : (i64) -> !llvm.ptr\n\
         \x20   llvm.store %x, %v1 : i64, !llvm.ptr\n\
         \x20   %v2 = llvm.load %v1 : !llvm.ptr -> i64\n\
         \x20   %v3 = llvm.getelementptr %args[0, 3] : (!llvm.ptr) -> !llvm.ptr, i32\n\
         \x20   %v4 = llvm.getelementptr %a[0, %i] : (!llvm.ptr, i64) -> !llvm.ptr, i8\n\
         \x20   %v5 = llvm.getelementptr %s[%j] : (!llvm.ptr, i64) -> !llvm.ptr, i8\n"
    );
}

#[test]
fn writes_control_flow_and_bounds_checks() {
    let closure = empty_closure();
    let mut builder = MlirBuilder::new("f", &closure, false);
    builder.emit_branch("loop_0");
    assert!(builder.current_terminated);
    builder.label("loop_0");
    assert!(!builder.current_terminated);
    builder.emit_cond("%c", "body_1", "exit_2");
    builder.label("body_1");
    assert_eq!(builder.bounds("%i", "%n"), Ok(()));
    assert!(!builder.current_terminated);
    assert_eq!(
        builder.text,
        "    llvm.br ^loop_0\n\
         \x20 ^loop_0:\n\
         \x20   llvm.cond_br %c, ^body_1, ^exit_2\n\
         \x20 ^body_1:\n\
         \x20   %v0 = llvm.icmp \"ult\" %i, %n : i64\n\
         \x20   llvm.cond_br %v0, ^bounds_ok_0, ^bounds_trap_1\n\
         \x20 ^bounds_trap_1:\n\
         \x20   llvm.intr.trap\n    llvm.unreachable\n\
         \x20 ^bounds_ok_0:\n"
    );
}
