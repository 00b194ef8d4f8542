//! Lowering of closure expressions to LLVM instructions. The decisions of the
//! lowering (which instruction, which predicate, which type, which error) are
//! stated over the type models and proved; the instructions themselves are
//! emitted through the bindings declared in [`crate::llvm`]. Every lowered
//! value comes with the [`Term`] that says how it was built, and the
//! contracts state that term: the instruction of each operator on the terms
//! of its loaded operands, in order, the constant of each literal, the slot
//! of each argument and the field address of each field access.
use vstd::prelude::*;
use inkwell::basic_block::BasicBlock;
use inkwell::builder::{Builder, BuilderError};
use inkwell::context::Context;
use inkwell::types::BasicTypeEnum;
use inkwell::values::{BasicValueEnum, FloatValue, FunctionValue, IntValue, PointerValue};
use crate::expr::Expr;
use crate::llvm::{
    FloatCompare, IntCompare, add_incoming, append_block, as_float, as_int, bit_cast, branch,
    builder_error_message, conditional_branch, f32_type, f64_type, float_add, float_compare,
    float_div, float_mul, float_neg, float_rem, float_sub, from_float, from_int, insert_block,
    int_add, int_and, int_compare, int_constant, int_mul, int_neg, int_not, int_or, int_shl,
    int_shr, int_signed_div, int_signed_rem, int_sub, int_type, int_unsigned_div,
    int_unsigned_rem, int_xor, load, phi, phi_value, position_at_end, struct_gep, struct_type,
    terminator, wide_int_constant, addressed, terms, type_repr, type_reprs, Built, Term,
};
use crate::types::{FieldInfo, FieldModel, TypeInfo, TypeModel, clone_type, fields_model, lemma_fields_model, type_models};
use crate::typing::{
    BinaryOp, TypeError, UnaryOp, binary_operand_type, find_field, spec_binary_operand_type,
    spec_find_field,
};
use crate::value::Value;

verus! {

/// Why an expression, a block or a closure cannot be lowered.
#[derive(Debug)]
pub enum LowerError {
    ArgumentOutOfBounds(usize),
    ArgumentTypeOutOfBounds(usize),
    UnsupportedConstant,
    UnsupportedExpression,
    UnsupportedStatement,
    UnsupportedType,
    FieldOnValue(String),
    FieldOnNonStruct(String),
    FieldNotFound(String),
    ConditionNotBool,
    NotOperand,
    NegOperand,
    BinaryOperands,
    FloatOperator,
    Operands(TypeError),
    InvalidLocal(usize),
    LocalOutOfBounds(usize),
    LocalTypeOutOfBounds(usize),
    MissingResult,
    UnexpectedResult,
    ResultTypeMismatch,
    MissingParameter,
    InvalidFunction,
    Backend(String),
}

/// The kind of an LLVM scalar type.
#[derive(Debug, Clone, Copy, PartialEq, Eq, Structural)]
pub enum ScalarKind {
    Int(u32),
    F32,
    F64,
}

/// The LLVM type that a type lowers to.
pub enum LlvmRepr {
    Scalar(ScalarKind),
    Struct(Seq<LlvmRepr>),
}

/// The LLVM scalar kind of a scalar type: `bool` is `i1`, `usize` is `i64`.
pub open spec fn scalar_kind(t: TypeModel) -> Option<ScalarKind> {
    match t {
        TypeModel::F32 => Some(ScalarKind::F32),
        TypeModel::F64 => Some(ScalarKind::F64),
        TypeModel::I8 | TypeModel::U8 => Some(ScalarKind::Int(8)),
        TypeModel::I16 | TypeModel::U16 => Some(ScalarKind::Int(16)),
        TypeModel::I32 | TypeModel::U32 => Some(ScalarKind::Int(32)),
        TypeModel::I64 | TypeModel::U64 | TypeModel::Usize => Some(ScalarKind::Int(64)),
        TypeModel::I128 | TypeModel::U128 => Some(ScalarKind::Int(128)),
        TypeModel::Bool => Some(ScalarKind::Int(1)),
        _ => None,
    }
}

/// The LLVM type of `t`; arrays and slices have none.
pub open spec fn llvm_repr(t: TypeModel) -> Option<LlvmRepr>
    decreases t, 0nat,
{
    match t {
        TypeModel::Struct { fields, .. } => match fields_repr(fields) {
            Some(reprs) => Some(LlvmRepr::Struct(reprs)),
            None => None,
        },
        TypeModel::Array { .. } => None,
        TypeModel::Slice { .. } => None,
        _ => match scalar_kind(t) {
            Some(kind) => Some(LlvmRepr::Scalar(kind)),
            None => None,
        },
    }
}

/// The LLVM types of the fields of a struct, where each has one.
pub open spec fn fields_repr(fields: Seq<FieldModel>) -> Option<Seq<LlvmRepr>>
    decreases fields, 1nat,
{
    if fields.len() == 0 {
        Some(Seq::empty())
    } else {
        match (llvm_repr(fields[0].type_info), fields_repr(fields.subrange(1, fields.len() as int))) {
            (Some(first), Some(rest)) => Some(seq![first] + rest),
            _ => None,
        }
    }
}

/// The fields have LLVM types exactly when each of them has one, and then
/// the types are those of the fields, in order.
pub proof fn lemma_fields_repr(fields: Seq<FieldModel>)
    ensures
        fields_repr(fields) is Some <==> (forall|i: int|
            0 <= i < fields.len() ==> #[trigger] llvm_repr(fields[i].type_info) is Some),
        fields_repr(fields) matches Some(reprs) ==> reprs.len() == fields.len() && (forall|i: int|
            0 <= i < fields.len() ==> Some(#[trigger] reprs[i]) == llvm_repr(fields[i].type_info)),
    decreases fields.len(),
{
    if fields.len() > 0 {
        let rest = fields.subrange(1, fields.len() as int);
        lemma_fields_repr(rest);
        assert forall|i: int| 0 < i < fields.len() implies #[trigger] fields[i] == rest[i - 1] by {}
        if fields_repr(fields) is Some {
            assert(fields_repr(rest) is Some && llvm_repr(fields[0].type_info) is Some);
            assert forall|i: int| 0 <= i < fields.len() implies #[trigger] llvm_repr(
                fields[i].type_info,
            ) is Some by {
                if i > 0 {
                    assert(fields[i] == rest[i - 1]);
                    assert(llvm_repr(rest[i - 1].type_info) is Some);
                }
            }
        }
        if forall|i: int| 0 <= i < fields.len() ==> #[trigger] llvm_repr(fields[i].type_info) is Some {
            assert(llvm_repr(fields[0].type_info) is Some);
            assert forall|i: int| 0 <= i < rest.len() implies #[trigger] llvm_repr(
                rest[i].type_info,
            ) is Some by {
                assert(rest[i] == fields[i + 1]);
            }
        }
        if fields_repr(fields) is Some {
            let reprs = fields_repr(fields)->0;
            let first = llvm_repr(fields[0].type_info)->0;
            let others = fields_repr(rest)->0;
            assert(reprs == seq![first] + others);
            assert forall|i: int| 0 <= i < fields.len() implies Some(#[trigger] reprs[i]) == llvm_repr(
                fields[i].type_info,
            ) by {
                if i > 0 {
                    assert(reprs[i] == others[i - 1]);
                    assert(fields[i] == rest[i - 1]);
                }
            }
        }
    }
}

/// The scalar types that lower to LLVM floating-point values.
pub open spec fn float_model(t: TypeModel) -> bool {
    t is F32 || t is F64
}

/// The scalar types that lower to LLVM integer values, `bool` among them.
pub open spec fn int_model(t: TypeModel) -> bool {
    scalar_kind(t) matches Some(ScalarKind::Int(_))
}

/// The LLVM type of `t`, built in `context`.
pub fn llvm_type<'ctx>(context: &'ctx Context, t: &TypeInfo) -> (r: Result<Built<BasicTypeEnum<'ctx>>, LowerError>)
    ensures
        r is Ok <==> llvm_repr(t@) is Some,
        r matches Err(e) ==> e == LowerError::UnsupportedType,
        r matches Ok(built) ==> built.term() is Type && Some(type_repr(built.term())) == llvm_repr(t@),
    decreases t,
{
    match t {
        TypeInfo::F32 => Ok(f32_type(context)),
        TypeInfo::F64 => Ok(f64_type(context)),
        TypeInfo::I8 | TypeInfo::U8 => Ok(int_type(context, 8)),
        TypeInfo::I16 | TypeInfo::U16 => Ok(int_type(context, 16)),
        TypeInfo::I32 | TypeInfo::U32 => Ok(int_type(context, 32)),
        TypeInfo::I64 | TypeInfo::U64 | TypeInfo::Usize => Ok(int_type(context, 64)),
        TypeInfo::I128 | TypeInfo::U128 => Ok(int_type(context, 128)),
        TypeInfo::Bool => Ok(int_type(context, 1)),
        TypeInfo::Array { .. } => Err(LowerError::UnsupportedType),
        TypeInfo::Slice { .. } => Err(LowerError::UnsupportedType),
        TypeInfo::Struct { name, fields } => {
            let ghost model = fields_model(fields@);
            proof {
                lemma_fields_model(fields@);
                lemma_fields_repr(model);
            }
            let mut field_types: Vec<Built<BasicTypeEnum<'ctx>>> = Vec::new();
            let mut i: usize = 0;
            while i < fields.len()
                invariant
                    0 <= i <= fields@.len(),
                    *t == (TypeInfo::Struct { name: *name, fields: *fields }),
                    model == fields_model(fields@),
                    model.len() == fields@.len(),
                    forall|k: int| 0 <= k < fields@.len() ==> #[trigger] model[k] == fields@[k]@,
                    forall|k: int| 0 <= k < i ==> #[trigger] llvm_repr(model[k].type_info) is Some,
                    field_types@.len() == i,
                    forall|k: int| 0 <= k < i ==> (#[trigger] field_types@[k]).term() is Type,
                    forall|k: int|
                        0 <= k < i ==> Some(type_repr((#[trigger] field_types@[k]).term())) == llvm_repr(
                            model[k].type_info,
                        ),
                decreases fields@.len() - i,
            {
                proof {
                    assert(decreases_to!(*t => (*t)->fields));
                    assert(decreases_to!(*fields => fields@));
                    assert(decreases_to!(fields@ => fields@[i as int]));
                    assert(decreases_to!(fields@[i as int] => fields@[i as int].type_info));
                }
                match llvm_type(context, &fields[i].type_info) {
                    Ok(built) => {
                        field_types.push(built);
                    },
                    Err(e) => {
                        proof {
                            lemma_fields_repr(model);
                        }
                        assert(llvm_repr(model[i as int].type_info) is None);
                        return Err(e);
                    },
                }
                i = i + 1;
            }
            proof {
                lemma_fields_repr(model);
                let rs = fields_repr(model)->0;
                assert(type_reprs(field_types@) =~= rs);
            }
            Ok(struct_type(context, &field_types))
        },
    }
}

/// Whether `t` has an LLVM type.
pub fn has_llvm_type(t: &TypeInfo) -> (r: bool)
    ensures
        r == llvm_repr(t@) is Some,
    decreases t,
{
    match t {
        TypeInfo::Array { .. } => false,
        TypeInfo::Slice { .. } => false,
        TypeInfo::Struct { name, fields } => {
            let ghost model = fields_model(fields@);
            proof {
                lemma_fields_model(fields@);
                lemma_fields_repr(model);
            }
            let mut i: usize = 0;
            while i < fields.len()
                invariant
                    0 <= i <= fields@.len(),
                    *t == (TypeInfo::Struct { name: *name, fields: *fields }),
                    model == fields_model(fields@),
                    model.len() == fields@.len(),
                    forall|k: int| 0 <= k < fields@.len() ==> #[trigger] model[k] == fields@[k]@,
                    forall|k: int| 0 <= k < i ==> #[trigger] llvm_repr(model[k].type_info) is Some,
                decreases fields@.len() - i,
            {
                proof {
                    assert(decreases_to!(*t => (*t)->fields));
                    assert(decreases_to!(*fields => fields@));
                    assert(decreases_to!(fields@ => fields@[i as int]));
                    assert(decreases_to!(fields@[i as int] => fields@[i as int].type_info));
                }
                if !has_llvm_type(&fields[i].type_info) {
                    proof {
                        lemma_fields_repr(model);
                    }
                    assert(llvm_repr(model[i as int].type_info) is None);
                    return false;
                }
                i = i + 1;
            }
            true
        },
        _ => true,
    }
}

/// The LLVM scalar kind of `t`.
pub fn scalar_kind_of(t: &TypeInfo) -> (r: Option<ScalarKind>)
    ensures
        r == scalar_kind(t@),
{
    match t {
        TypeInfo::F32 => Some(ScalarKind::F32),
        TypeInfo::F64 => Some(ScalarKind::F64),
        TypeInfo::I8 | TypeInfo::U8 => Some(ScalarKind::Int(8)),
        TypeInfo::I16 | TypeInfo::U16 => Some(ScalarKind::Int(16)),
        TypeInfo::I32 | TypeInfo::U32 => Some(ScalarKind::Int(32)),
        TypeInfo::I64 | TypeInfo::U64 | TypeInfo::Usize => Some(ScalarKind::Int(64)),
        TypeInfo::I128 | TypeInfo::U128 => Some(ScalarKind::Int(128)),
        TypeInfo::Bool => Some(ScalarKind::Int(1)),
        _ => None,
    }
}

/// Whether `a` has an LLVM type and `b` has the same one.
pub fn same_llvm_type(a: &TypeInfo, b: &TypeInfo) -> (r: bool)
    ensures
        r == (llvm_repr(a@) is Some && llvm_repr(a@) == llvm_repr(b@)),
    decreases a,
{
    match (a, b) {
        (TypeInfo::Struct { name: na, fields: fa }, TypeInfo::Struct { name: nb, fields: fb }) => {
            let ghost ma = fields_model(fa@);
            let ghost mb = fields_model(fb@);
            proof {
                lemma_fields_model(fa@);
                lemma_fields_model(fb@);
                lemma_fields_repr(ma);
                lemma_fields_repr(mb);
            }
            if fa.len() != fb.len() {
                proof {
                    if fields_repr(ma) is Some && fields_repr(ma) == fields_repr(mb) {
                        assert(fields_repr(ma)->0.len() == fields_repr(mb)->0.len());
                    }
                }
                return false;
            }
            let mut i: usize = 0;
            while i < fa.len()
                invariant
                    0 <= i <= fa@.len(),
                    *a == (TypeInfo::Struct { name: *na, fields: *fa }),
                    *b == (TypeInfo::Struct { name: *nb, fields: *fb }),
                    fa@.len() == fb@.len(),
                    ma == fields_model(fa@),
                    mb == fields_model(fb@),
                    ma.len() == fa@.len(),
                    mb.len() == fb@.len(),
                    forall|k: int| 0 <= k < fa@.len() ==> #[trigger] ma[k] == fa@[k]@,
                    forall|k: int| 0 <= k < fb@.len() ==> #[trigger] mb[k] == fb@[k]@,
                    forall|k: int|
                        0 <= k < i ==> llvm_repr(#[trigger] ma[k].type_info) is Some && llvm_repr(
                            ma[k].type_info,
                        ) == llvm_repr(mb[k].type_info),
                decreases fa@.len() - i,
            {
                proof {
                    assert(decreases_to!(*a => (*a)->fields));
                    assert(decreases_to!(*fa => fa@));
                    assert(decreases_to!(fa@ => fa@[i as int]));
                    assert(decreases_to!(fa@[i as int] => fa@[i as int].type_info));
                }
                if !same_llvm_type(&fa[i].type_info, &fb[i].type_info) {
                    proof {
                        lemma_fields_repr(ma);
                        lemma_fields_repr(mb);
                        if fields_repr(ma) is Some && fields_repr(ma) == fields_repr(mb) {
                            let ra = fields_repr(ma)->0;
                            assert(Some(ra[i as int]) == llvm_repr(ma[i as int].type_info));
                            assert(Some(ra[i as int]) == llvm_repr(mb[i as int].type_info));
                        }
                    }
                    return false;
                }
                i = i + 1;
            }
            proof {
                lemma_fields_repr(ma);
                lemma_fields_repr(mb);
                assert(fields_repr(ma) is Some);
                assert forall|k: int| 0 <= k < mb.len() implies #[trigger] llvm_repr(
                    mb[k].type_info,
                ) is Some by {
                    assert(llvm_repr(ma[k].type_info) is Some);
                }
                assert(fields_repr(mb) is Some);
                let ra = fields_repr(ma)->0;
                let rb = fields_repr(mb)->0;
                assert forall|k: int| 0 <= k < ra.len() implies ra[k] == rb[k] by {
                    assert(Some(ra[k]) == llvm_repr(ma[k].type_info));
                    assert(Some(rb[k]) == llvm_repr(mb[k].type_info));
                }
                assert(ra =~= rb);
            }
            true
        },
        (TypeInfo::Struct { .. }, _) => false,
        _ => match (scalar_kind_of(a), scalar_kind_of(b)) {
            (Some(x), Some(y)) => x == y,
            _ => false,
        },
    }
}


/// How a scalar constant is built: an integer of `bits` bits from a 64-bit
/// word, a 128-bit integer from two words, or a floating-point number from
/// the bits of its encoding.
#[derive(Debug, Clone, Copy, PartialEq, Eq)]
pub enum ConstantPlan {
    Int { bits: u32, value: u64, sign_extend: bool },
    Wide { low: u64, high: u64 },
    Float { bits: u32, raw: u64 },
}

/// The plan for the constant `v`; arrays have none.
pub open spec fn spec_constant_plan(v: Value) -> Option<ConstantPlan> {
    match v {
        Value::F32(bits) => Some(ConstantPlan::Float { bits: 32, raw: bits as u64 }),
        Value::F64(bits) => Some(ConstantPlan::Float { bits: 64, raw: bits }),
        Value::I8(x) => Some(ConstantPlan::Int { bits: 8, value: x as u64, sign_extend: true }),
        Value::I16(x) => Some(ConstantPlan::Int { bits: 16, value: x as u64, sign_extend: true }),
        Value::I32(x) => Some(ConstantPlan::Int { bits: 32, value: x as u64, sign_extend: true }),
        Value::I64(x) => Some(ConstantPlan::Int { bits: 64, value: x as u64, sign_extend: true }),
        Value::I128(x) => Some(
            ConstantPlan::Wide { low: (x as u128) as u64, high: ((x as u128) >> 64u128) as u64 },
        ),
        Value::U8(x) => Some(ConstantPlan::Int { bits: 8, value: x as u64, sign_extend: false }),
        Value::U16(x) => Some(ConstantPlan::Int { bits: 16, value: x as u64, sign_extend: false }),
        Value::U32(x) => Some(ConstantPlan::Int { bits: 32, value: x as u64, sign_extend: false }),
        Value::U64(x) => Some(ConstantPlan::Int { bits: 64, value: x, sign_extend: false }),
        Value::U128(x) => Some(ConstantPlan::Wide { low: x as u64, high: (x >> 64u128) as u64 }),
        Value::Usize(x) => Some(ConstantPlan::Int { bits: 64, value: x as u64, sign_extend: false }),
        Value::Bool(b) => Some(
            ConstantPlan::Int { bits: 1, value: if b { 1 } else { 0 }, sign_extend: false },
        ),
        Value::Array(_) => None,
    }
}

/// The 128-bit pattern of a 128-bit constant.
pub open spec fn wide_bits(v: Value) -> int {
    match v {
        Value::I128(x) => (x as u128) as int,
        Value::U128(x) => x as int,
        _ => 0,
    }
}

/// The plan for building the constant `v`. The two words of a 128-bit
/// constant hold its bit pattern: `low + high * 2^64`.
pub fn constant_plan(v: &Value) -> (r: Option<ConstantPlan>)
    ensures
        r == spec_constant_plan(*v),
        r matches Some(ConstantPlan::Wide { low, high }) ==> low + high * 0x1_0000_0000_0000_0000
            == wide_bits(*v),
        r matches Some(ConstantPlan::Int { bits, .. }) ==> 1 <= bits <= 64,
        r matches Some(ConstantPlan::Float { bits, .. }) ==> bits == 32 || bits == 64,
{
    match v {
        Value::F32(bits) => Some(ConstantPlan::Float { bits: 32, raw: *bits as u64 }),
        Value::F64(bits) => Some(ConstantPlan::Float { bits: 64, raw: *bits }),
        Value::I8(x) => Some(ConstantPlan::Int { bits: 8, value: *x as u64, sign_extend: true }),
        Value::I16(x) => Some(ConstantPlan::Int { bits: 16, value: *x as u64, sign_extend: true }),
        Value::I32(x) => Some(ConstantPlan::Int { bits: 32, value: *x as u64, sign_extend: true }),
        Value::I64(x) => Some(ConstantPlan::Int { bits: 64, value: *x as u64, sign_extend: true }),
        Value::I128(x) => {
            let w = *x as u128;
            let low = w as u64;
            let high = (w >> 64u128) as u64;
            assert(low + high * 0x1_0000_0000_0000_0000 == w) by (bit_vector)
                requires
                    low == w as u64,
                    high == (w >> 64u128) as u64,
            ;
            Some(ConstantPlan::Wide { low, high })
        },
        Value::U8(x) => Some(ConstantPlan::Int { bits: 8, value: *x as u64, sign_extend: false }),
        Value::U16(x) => Some(ConstantPlan::Int { bits: 16, value: *x as u64, sign_extend: false }),
        Value::U32(x) => Some(ConstantPlan::Int { bits: 32, value: *x as u64, sign_extend: false }),
        Value::U64(x) => Some(ConstantPlan::Int { bits: 64, value: *x, sign_extend: false }),
        Value::U128(x) => {
            let w = *x;
            let low = w as u64;
            let high = (w >> 64u128) as u64;
            assert(low + high * 0x1_0000_0000_0000_0000 == w) by (bit_vector)
                requires
                    low == w as u64,
                    high == (w >> 64u128) as u64,
            ;
            Some(ConstantPlan::Wide { low, high })
        },
        Value::Usize(x) => Some(
            ConstantPlan::Int { bits: 64, value: *x as u64, sign_extend: false },
        ),
        Value::Bool(b) => Some(
            ConstantPlan::Int { bits: 1, value: if *b { 1 } else { 0 }, sign_extend: false },
        ),
        Value::Array(_) => None,
    }
}

/// An integer instruction.
#[derive(Debug, Clone, Copy, PartialEq, Eq)]
pub enum IntInstruction {
    Add,
    Sub,
    Mul,
    SignedDiv,
    UnsignedDiv,
    SignedRem,
    UnsignedRem,
    Compare(IntCompare),
    And,
    Or,
    Xor,
    Shl,
    Shr { arithmetic: bool },
}

/// The instruction for `op` on integers, unsigned ones when `unsigned`:
/// division, remainder and ordering use the signedness of the operands, and
/// a right shift of signed operands is arithmetic.
pub open spec fn spec_int_instruction(op: BinaryOp, unsigned: bool) -> IntInstruction {
    match op {
        BinaryOp::Add => IntInstruction::Add,
        BinaryOp::Sub => IntInstruction::Sub,
        BinaryOp::Mul => IntInstruction::Mul,
        BinaryOp::Div => if unsigned {
            IntInstruction::UnsignedDiv
        } else {
            IntInstruction::SignedDiv
        },
        BinaryOp::Rem => if unsigned {
            IntInstruction::UnsignedRem
        } else {
            IntInstruction::SignedRem
        },
        BinaryOp::Eq => IntInstruction::Compare(IntCompare::Eq),
        BinaryOp::Ne => IntInstruction::Compare(IntCompare::Ne),
        BinaryOp::Lt => IntInstruction::Compare(
            if unsigned {
                IntCompare::Ult
            } else {
                IntCompare::Slt
            },
        ),
        BinaryOp::Le => IntInstruction::Compare(
            if unsigned {
                IntCompare::Ule
            } else {
                IntCompare::Sle
            },
        ),
        BinaryOp::Gt => IntInstruction::Compare(
            if unsigned {
                IntCompare::Ugt
            } else {
                IntCompare::Sgt
            },
        ),
        BinaryOp::Ge => IntInstruction::Compare(
            if unsigned {
                IntCompare::Uge
            } else {
                IntCompare::Sge
            },
        ),
        BinaryOp::And | BinaryOp::BitAnd => IntInstruction::And,
        BinaryOp::Or | BinaryOp::BitOr => IntInstruction::Or,
        BinaryOp::BitXor => IntInstruction::Xor,
        BinaryOp::Shl => IntInstruction::Shl,
        BinaryOp::Shr => IntInstruction::Shr { arithmetic: !unsigned },
    }
}

/// The instruction for `op` on integers.
pub fn int_instruction(op: BinaryOp, unsigned: bool) -> (r: IntInstruction)
    ensures
        r == spec_int_instruction(op, unsigned),
{
    match op {
        BinaryOp::Add => IntInstruction::Add,
        BinaryOp::Sub => IntInstruction::Sub,
        BinaryOp::Mul => IntInstruction::Mul,
        BinaryOp::Div => if unsigned {
            IntInstruction::UnsignedDiv
        } else {
            IntInstruction::SignedDiv
        },
        BinaryOp::Rem => if unsigned {
            IntInstruction::UnsignedRem
        } else {
            IntInstruction::SignedRem
        },
        BinaryOp::Eq => IntInstruction::Compare(IntCompare::Eq),
        BinaryOp::Ne => IntInstruction::Compare(IntCompare::Ne),
        BinaryOp::Lt => IntInstruction::Compare(
            if unsigned {
                IntCompare::Ult
            } else {
                IntCompare::Slt
            },
        ),
        BinaryOp::Le => IntInstruction::Compare(
            if unsigned {
                IntCompare::Ule
            } else {
                IntCompare::Sle
            },
        ),
        BinaryOp::Gt => IntInstruction::Compare(
            if unsigned {
                IntCompare::Ugt
            } else {
                IntCompare::Sgt
            },
        ),
        BinaryOp::Ge => IntInstruction::Compare(
            if unsigned {
                IntCompare::Uge
            } else {
                IntCompare::Sge
            },
        ),
        BinaryOp::And | BinaryOp::BitAnd => IntInstruction::And,
        BinaryOp::Or | BinaryOp::BitOr => IntInstruction::Or,
        BinaryOp::BitXor => IntInstruction::Xor,
        BinaryOp::Shl => IntInstruction::Shl,
        BinaryOp::Shr => IntInstruction::Shr { arithmetic: !unsigned },
    }
}

/// A floating-point instruction.
#[derive(Debug, Clone, Copy, PartialEq, Eq)]
pub enum FloatInstruction {
    Add,
    Sub,
    Mul,
    Div,
    Rem,
    Compare(FloatCompare),
}

/// Whether integer operands of type `t` are compared, divided and shifted
/// as unsigned numbers: the unsigned integers and `bool` (`false < true`).
pub open spec fn unsigned_operand(t: TypeModel) -> bool {
    t is U8 || t is U16 || t is U32 || t is U64 || t is U128 || t is Usize || t is Bool
}

/// The type of the loaded value of a lowering, where it has one.
pub open spec fn loaded_type(s: Result<Shape, LowerError>) -> Option<TypeModel> {
    match s {
        Ok(shape) => match materialized(shape) {
            Ok(t) => Some(t),
            Err(_) => None,
        },
        Err(_) => None,
    }
}

/// Whether the loaded value of a lowering is a floating-point number.
pub open spec fn loaded_float(s: Result<Shape, LowerError>) -> bool {
    loaded_type(s) matches Some(t) && float_model(t)
}

/// How the constant for `v` is built: from its plan, a floating-point
/// constant as the bits of an integer constant.
pub open spec fn constant_term(v: Value) -> Term {
    match spec_constant_plan(v) {
        Some(ConstantPlan::Float { bits, raw }) => Term::Bits(
            Box::new(Term::Constant(ConstantPlan::Int { bits, value: raw, sign_extend: false })),
            LlvmRepr::Scalar(
                if bits == 32 {
                    ScalarKind::F32
                } else {
                    ScalarKind::F64
                },
            ),
        ),
        Some(plan) => Term::Constant(plan),
        None => Term::BytePointer,
    }
}

/// The instruction for `op` on loaded operands `lhs` and `rhs` of type
/// `operand`, floating-point ones when `float`.
pub open spec fn binary_term(op: BinaryOp, operand: TypeModel, float: bool, lhs: Term, rhs: Term) -> Term {
    if float {
        match spec_float_instruction(op) {
            Some(i) => Term::Float(i, Box::new(lhs), Box::new(rhs)),
            None => Term::BytePointer,
        }
    } else {
        Term::Int(spec_int_instruction(op, unsigned_operand(operand)), Box::new(lhs), Box::new(rhs))
    }
}

/// The position of the first of `fields` called `name`.
pub open spec fn field_position(fields: Seq<FieldModel>, name: Seq<char>) -> nat
    decreases fields.len(),
{
    if fields.len() == 0 || fields[0].name == name {
        0
    } else {
        field_position(fields.drop_first(), name) + 1
    }
}

/// The first field called `name` is at position `i`.
pub proof fn lemma_field_position(fields: Seq<FieldModel>, name: Seq<char>, i: int)
    requires
        0 <= i < fields.len(),
        fields[i].name == name,
        forall|j: int| 0 <= j < i ==> #[trigger] fields[j].name != name,
    ensures
        field_position(fields, name) == i,
    decreases i,
{
    if i > 0 {
        let rest = fields.drop_first();
        assert(fields[0].name != name);
        assert forall|j: int| 0 <= j < i - 1 implies #[trigger] rest[j].name != name by {
            assert(rest[j] == fields[j + 1]);
        }
        lemma_field_position(rest, name, i - 1);
    }
}

/// The field `name` of the struct that `base` addresses, first of its name
/// at position `index`, addresses a value of the field's LLVM type.
proof fn lemma_field_address(base: Term, object: TypeModel, name: Seq<char>, index: int)
    requires
        object is Struct,
        llvm_repr(object) is Some,
        addressed(base) == llvm_repr(object),
        0 <= index < object->fields.len(),
        object->fields[index].name == name,
        forall|j: int| 0 <= j < index ==> #[trigger] object->fields[j].name != name,
    ensures
        field_position(object->fields, name) == index,
        llvm_repr(object->fields[index].type_info) is Some,
        addressed(Term::Field(Box::new(base), index as nat)) == llvm_repr(object->fields[index].type_info),
{
    let fields = object->fields;
    lemma_field_position(fields, name, index);
    lemma_fields_repr(fields);
}

/// The operator and operands of a binary expression.
pub open spec fn binary_parts(e: Expr) -> Option<(BinaryOp, Expr, Expr)> {
    match e {
        Expr::Add { lhs, rhs } => Some((BinaryOp::Add, *lhs, *rhs)),
        Expr::Sub { lhs, rhs } => Some((BinaryOp::Sub, *lhs, *rhs)),
        Expr::Mul { lhs, rhs } => Some((BinaryOp::Mul, *lhs, *rhs)),
        Expr::Div { lhs, rhs } => Some((BinaryOp::Div, *lhs, *rhs)),
        Expr::Rem { lhs, rhs } => Some((BinaryOp::Rem, *lhs, *rhs)),
        Expr::Eq { lhs, rhs } => Some((BinaryOp::Eq, *lhs, *rhs)),
        Expr::Ne { lhs, rhs } => Some((BinaryOp::Ne, *lhs, *rhs)),
        Expr::Lt { lhs, rhs } => Some((BinaryOp::Lt, *lhs, *rhs)),
        Expr::Le { lhs, rhs } => Some((BinaryOp::Le, *lhs, *rhs)),
        Expr::Gt { lhs, rhs } => Some((BinaryOp::Gt, *lhs, *rhs)),
        Expr::Ge { lhs, rhs } => Some((BinaryOp::Ge, *lhs, *rhs)),
        Expr::And { lhs, rhs } => Some((BinaryOp::And, *lhs, *rhs)),
        Expr::Or { lhs, rhs } => Some((BinaryOp::Or, *lhs, *rhs)),
        Expr::BitAnd { lhs, rhs } => Some((BinaryOp::BitAnd, *lhs, *rhs)),
        Expr::BitOr { lhs, rhs } => Some((BinaryOp::BitOr, *lhs, *rhs)),
        Expr::BitXor { lhs, rhs } => Some((BinaryOp::BitXor, *lhs, *rhs)),
        Expr::Shl { lhs, rhs } => Some((BinaryOp::Shl, *lhs, *rhs)),
        Expr::Shr { lhs, rhs } => Some((BinaryOp::Shr, *lhs, *rhs)),
        _ => None,
    }
}

/// The expressions that the lowering has no instructions for.
pub open spec fn unsupported_expression(e: Expr) -> bool {
    e is Capture || e is Cast || e is Index || e is Len || e is Struct || e is Tuple || e is Intrinsic
        || e is ExternalCall
}

/// How the loaded value of `e` is built: the value of a lowering that is a
/// value, the load of one that is an address.
pub open spec fn loaded_term(args: Seq<Term>, types: Seq<TypeModel>, expected: TypeModel, e: Expr) -> Term
    decreases e, 1nat,
{
    match spec_lower(args.len(), types, expected, e) {
        Ok(Shape::Pointer(_)) => Term::Load(Box::new(spec_term(args, types, expected, e))),
        _ => spec_term(args, types, expected, e),
    }
}

/// How the lowering of `e` builds its result, where the argument and local
/// slots are described by `args` and have types `types`: the slot of an
/// argument, the address of a field, a constant, the instruction of an
/// operator on the loaded operands, or the phi node of the two branches of
/// an `if`, a `&&` or a `||`.
pub open spec fn spec_term(args: Seq<Term>, types: Seq<TypeModel>, expected: TypeModel, e: Expr) -> Term
    decreases e, 0nat,
{
    match e {
        Expr::Argument(i) => if i < args.len() {
            args[i as int]
        } else {
            Term::BytePointer
        },
        Expr::Constant(v) => constant_term(v),
        Expr::Field { object, name } => match spec_lower(args.len(), types, expected, *object) {
            Ok(Shape::Pointer(TypeModel::Struct { fields, .. })) => Term::Field(
                Box::new(spec_term(args, types, expected, *object)),
                field_position(fields, name@),
            ),
            _ => Term::BytePointer,
        },
        Expr::IfElse { then_branch, else_branch, .. } => Term::Phi(
            Box::new(loaded_term(args, types, expected, *then_branch)),
            Box::new(loaded_term(args, types, expected, *else_branch)),
        ),
        Expr::Add { lhs, rhs } => {
            let operand = expected_of(spec_binary_operand_type(types, *lhs, *rhs, BinaryOp::Add));
            binary_term(
                BinaryOp::Add,
                operand,
                loaded_float(spec_lower(args.len(), types, operand, *lhs)),
                loaded_term(args, types, operand, *lhs),
                loaded_term(args, types, operand, *rhs),
            )
        },
        Expr::Sub { lhs, rhs } => {
            let operand = expected_of(spec_binary_operand_type(types, *lhs, *rhs, BinaryOp::Sub));
            binary_term(
                BinaryOp::Sub,
                operand,
                loaded_float(spec_lower(args.len(), types, operand, *lhs)),
                loaded_term(args, types, operand, *lhs),
                loaded_term(args, types, operand, *rhs),
            )
        },
        Expr::Mul { lhs, rhs } => {
            let operand = expected_of(spec_binary_operand_type(types, *lhs, *rhs, BinaryOp::Mul));
            binary_term(
                BinaryOp::Mul,
                operand,
                loaded_float(spec_lower(args.len(), types, operand, *lhs)),
                loaded_term(args, types, operand, *lhs),
                loaded_term(args, types, operand, *rhs),
            )
        },
        Expr::Div { lhs, rhs } => {
            let operand = expected_of(spec_binary_operand_type(types, *lhs, *rhs, BinaryOp::Div));
            binary_term(
                BinaryOp::Div,
                operand,
                loaded_float(spec_lower(args.len(), types, operand, *lhs)),
                loaded_term(args, types, operand, *lhs),
                loaded_term(args, types, operand, *rhs),
            )
        },
        Expr::Rem { lhs, rhs } => {
            let operand = expected_of(spec_binary_operand_type(types, *lhs, *rhs, BinaryOp::Rem));
            binary_term(
                BinaryOp::Rem,
                operand,
                loaded_float(spec_lower(args.len(), types, operand, *lhs)),
                loaded_term(args, types, operand, *lhs),
                loaded_term(args, types, operand, *rhs),
            )
        },
        Expr::Eq { lhs, rhs } => {
            let operand = expected_of(spec_binary_operand_type(types, *lhs, *rhs, BinaryOp::Eq));
            binary_term(
                BinaryOp::Eq,
                operand,
                loaded_float(spec_lower(args.len(), types, operand, *lhs)),
                loaded_term(args, types, operand, *lhs),
                loaded_term(args, types, operand, *rhs),
            )
        },
        Expr::Ne { lhs, rhs } => {
            let operand = expected_of(spec_binary_operand_type(types, *lhs, *rhs, BinaryOp::Ne));
            binary_term(
                BinaryOp::Ne,
                operand,
                loaded_float(spec_lower(args.len(), types, operand, *lhs)),
                loaded_term(args, types, operand, *lhs),
                loaded_term(args, types, operand, *rhs),
            )
        },
        Expr::Lt { lhs, rhs } => {
            let operand = expected_of(spec_binary_operand_type(types, *lhs, *rhs, BinaryOp::Lt));
            binary_term(
                BinaryOp::Lt,
                operand,
                loaded_float(spec_lower(args.len(), types, operand, *lhs)),
                loaded_term(args, types, operand, *lhs),
                loaded_term(args, types, operand, *rhs),
            )
        },
        Expr::Le { lhs, rhs } => {
            let operand = expected_of(spec_binary_operand_type(types, *lhs, *rhs, BinaryOp::Le));
            binary_term(
                BinaryOp::Le,
                operand,
                loaded_float(spec_lower(args.len(), types, operand, *lhs)),
                loaded_term(args, types, operand, *lhs),
                loaded_term(args, types, operand, *rhs),
            )
        },
        Expr::Gt { lhs, rhs } => {
            let operand = expected_of(spec_binary_operand_type(types, *lhs, *rhs, BinaryOp::Gt));
            binary_term(
                BinaryOp::Gt,
                operand,
                loaded_float(spec_lower(args.len(), types, operand, *lhs)),
                loaded_term(args, types, operand, *lhs),
                loaded_term(args, types, operand, *rhs),
            )
        },
        Expr::Ge { lhs, rhs } => {
            let operand = expected_of(spec_binary_operand_type(types, *lhs, *rhs, BinaryOp::Ge));
            binary_term(
                BinaryOp::Ge,
                operand,
                loaded_float(spec_lower(args.len(), types, operand, *lhs)),
                loaded_term(args, types, operand, *lhs),
                loaded_term(args, types, operand, *rhs),
            )
        },
        Expr::BitAnd { lhs, rhs } => {
            let operand = expected_of(spec_binary_operand_type(types, *lhs, *rhs, BinaryOp::BitAnd));
            binary_term(
                BinaryOp::BitAnd,
                operand,
                loaded_float(spec_lower(args.len(), types, operand, *lhs)),
                loaded_term(args, types, operand, *lhs),
                loaded_term(args, types, operand, *rhs),
            )
        },
        Expr::BitOr { lhs, rhs } => {
            let operand = expected_of(spec_binary_operand_type(types, *lhs, *rhs, BinaryOp::BitOr));
            binary_term(
                BinaryOp::BitOr,
                operand,
                loaded_float(spec_lower(args.len(), types, operand, *lhs)),
                loaded_term(args, types, operand, *lhs),
                loaded_term(args, types, operand, *rhs),
            )
        },
        Expr::BitXor { lhs, rhs } => {
            let operand = expected_of(spec_binary_operand_type(types, *lhs, *rhs, BinaryOp::BitXor));
            binary_term(
                BinaryOp::BitXor,
                operand,
                loaded_float(spec_lower(args.len(), types, operand, *lhs)),
                loaded_term(args, types, operand, *lhs),
                loaded_term(args, types, operand, *rhs),
            )
        },
        Expr::Shl { lhs, rhs } => {
            let operand = expected_of(spec_binary_operand_type(types, *lhs, *rhs, BinaryOp::Shl));
            binary_term(
                BinaryOp::Shl,
                operand,
                loaded_float(spec_lower(args.len(), types, operand, *lhs)),
                loaded_term(args, types, operand, *lhs),
                loaded_term(args, types, operand, *rhs),
            )
        },
        Expr::Shr { lhs, rhs } => {
            let operand = expected_of(spec_binary_operand_type(types, *lhs, *rhs, BinaryOp::Shr));
            binary_term(
                BinaryOp::Shr,
                operand,
                loaded_float(spec_lower(args.len(), types, operand, *lhs)),
                loaded_term(args, types, operand, *lhs),
                loaded_term(args, types, operand, *rhs),
            )
        },
        Expr::And { lhs, rhs } => {
            let operand = expected_of(spec_binary_operand_type(types, *lhs, *rhs, BinaryOp::And));
            Term::Phi(
                Box::new(loaded_term(args, types, operand, *lhs)),
                Box::new(loaded_term(args, types, operand, *rhs)),
            )
        },
        Expr::Or { lhs, rhs } => {
            let operand = expected_of(spec_binary_operand_type(types, *lhs, *rhs, BinaryOp::Or));
            Term::Phi(
                Box::new(loaded_term(args, types, operand, *lhs)),
                Box::new(loaded_term(args, types, operand, *rhs)),
            )
        },
        Expr::Not { operand } => Term::IntNot(Box::new(loaded_term(args, types, expected, *operand))),
        Expr::Neg { operand } => if loaded_float(spec_lower(args.len(), types, expected, *operand)) {
            Term::FloatNeg(Box::new(loaded_term(args, types, expected, *operand)))
        } else {
            Term::IntNeg(Box::new(loaded_term(args, types, expected, *operand)))
        },
        _ => Term::BytePointer,
    }
}

/// The instruction for `op` on floating-point numbers: `!=` is unordered
/// (true when either operand is NaN, as in Rust), the other comparisons are
/// ordered; logical, bitwise and shift operators have none.
pub open spec fn spec_float_instruction(op: BinaryOp) -> Option<FloatInstruction> {
    match op {
        BinaryOp::Add => Some(FloatInstruction::Add),
        BinaryOp::Sub => Some(FloatInstruction::Sub),
        BinaryOp::Mul => Some(FloatInstruction::Mul),
        BinaryOp::Div => Some(FloatInstruction::Div),
        BinaryOp::Rem => Some(FloatInstruction::Rem),
        BinaryOp::Eq => Some(FloatInstruction::Compare(FloatCompare::Oeq)),
        BinaryOp::Ne => Some(FloatInstruction::Compare(FloatCompare::Une)),
        BinaryOp::Lt => Some(FloatInstruction::Compare(FloatCompare::Olt)),
        BinaryOp::Le => Some(FloatInstruction::Compare(FloatCompare::Ole)),
        BinaryOp::Gt => Some(FloatInstruction::Compare(FloatCompare::Ogt)),
        BinaryOp::Ge => Some(FloatInstruction::Compare(FloatCompare::Oge)),
        _ => None,
    }
}

/// The instruction for `op` on floating-point numbers.
pub fn float_instruction(op: BinaryOp) -> (r: Option<FloatInstruction>)
    ensures
        r == spec_float_instruction(op),
{
    match op {
        BinaryOp::Add => Some(FloatInstruction::Add),
        BinaryOp::Sub => Some(FloatInstruction::Sub),
        BinaryOp::Mul => Some(FloatInstruction::Mul),
        BinaryOp::Div => Some(FloatInstruction::Div),
        BinaryOp::Rem => Some(FloatInstruction::Rem),
        BinaryOp::Eq => Some(FloatInstruction::Compare(FloatCompare::Oeq)),
        BinaryOp::Ne => Some(FloatInstruction::Compare(FloatCompare::Une)),
        BinaryOp::Lt => Some(FloatInstruction::Compare(FloatCompare::Olt)),
        BinaryOp::Le => Some(FloatInstruction::Compare(FloatCompare::Ole)),
        BinaryOp::Gt => Some(FloatInstruction::Compare(FloatCompare::Ogt)),
        BinaryOp::Ge => Some(FloatInstruction::Compare(FloatCompare::Oge)),
        _ => None,
    }
}

/// The comparison operators, whose result is a `bool`.
pub open spec fn is_comparison(op: BinaryOp) -> bool {
    match op {
        BinaryOp::Eq | BinaryOp::Ne | BinaryOp::Lt | BinaryOp::Le | BinaryOp::Gt | BinaryOp::Ge => true,
        _ => false,
    }
}

/// Whether `op` is a comparison.
pub fn comparison(op: BinaryOp) -> (r: bool)
    ensures
        r == is_comparison(op),
{
    match op {
        BinaryOp::Eq | BinaryOp::Ne | BinaryOp::Lt | BinaryOp::Le | BinaryOp::Gt | BinaryOp::Ge => true,
        _ => false,
    }
}

/// What lowering an expression yields: a value of the given type, or the
/// address of a value of the given type.
pub enum Shape {
    Value(TypeModel),
    Pointer(TypeModel),
}

/// The type of a scalar constant.
pub open spec fn scalar_type(v: Value) -> Option<TypeModel> {
    match v {
        Value::F32(_) => Some(TypeModel::F32),
        Value::F64(_) => Some(TypeModel::F64),
        Value::I8(_) => Some(TypeModel::I8),
        Value::I16(_) => Some(TypeModel::I16),
        Value::I32(_) => Some(TypeModel::I32),
        Value::I64(_) => Some(TypeModel::I64),
        Value::I128(_) => Some(TypeModel::I128),
        Value::U8(_) => Some(TypeModel::U8),
        Value::U16(_) => Some(TypeModel::U16),
        Value::U32(_) => Some(TypeModel::U32),
        Value::U64(_) => Some(TypeModel::U64),
        Value::U128(_) => Some(TypeModel::U128),
        Value::Usize(_) => Some(TypeModel::Usize),
        Value::Bool(_) => Some(TypeModel::Bool),
        Value::Array(_) => None,
    }
}

/// The type of a value once it is loaded: an address is loaded at its
/// type, which must have an LLVM type.
pub open spec fn materialized(s: Shape) -> Result<TypeModel, LowerError> {
    match s {
        Shape::Value(t) => Ok(t),
        Shape::Pointer(t) => if llvm_repr(t) is Some {
            Ok(t)
        } else {
            Err(LowerError::UnsupportedType)
        },
    }
}

/// The type the operands of a binary operator are lowered at.
pub open spec fn expected_of(operand: Result<TypeModel, TypeError>) -> TypeModel {
    match operand {
        Ok(t) => t,
        Err(_) => TypeModel::Bool,
    }
}

/// The result of `op` on loaded operands of types `lt` and `rt`: both
/// floating-point, where `op` has a floating-point instruction, or both
/// integers. Comparisons give a `bool`, the other operators the type of the
/// left operand.
pub open spec fn binary_result(op: BinaryOp, lt: TypeModel, rt: TypeModel) -> Result<Shape, LowerError> {
    let result = if is_comparison(op) {
        TypeModel::Bool
    } else {
        lt
    };
    if float_model(lt) && float_model(rt) {
        if spec_float_instruction(op) is Some {
            Ok(Shape::Value(result))
        } else {
            Err(LowerError::FloatOperator)
        }
    } else if int_model(lt) && int_model(rt) {
        Ok(Shape::Value(result))
    } else {
        Err(LowerError::BinaryOperands)
    }
}

/// Lowering a binary operator: the operand type, then the left operand,
/// loaded, then the right operand, loaded, then the instruction.
pub open spec fn binary_shape(
    op: BinaryOp,
    operand: Result<TypeModel, TypeError>,
    lhs: Result<Shape, LowerError>,
    rhs: Result<Shape, LowerError>,
) -> Result<Shape, LowerError> {
    match operand {
        Err(e) => Err(LowerError::Operands(e)),
        Ok(_) => match lhs {
            Err(e) => Err(e),
            Ok(ls) => match materialized(ls) {
                Err(e) => Err(e),
                Ok(lt) => match rhs {
                    Err(e) => Err(e),
                    Ok(rs) => match materialized(rs) {
                        Err(e) => Err(e),
                        Ok(rt) => binary_result(op, lt, rt),
                    },
                },
            },
        },
    }
}

/// Lowering a unary operator: `!` takes an integer or a `bool`, `-` an
/// integer or a floating-point number.
pub open spec fn unary_shape(op: UnaryOp, operand: Result<Shape, LowerError>) -> Result<Shape, LowerError> {
    match operand {
        Err(e) => Err(e),
        Ok(s) => match materialized(s) {
            Err(e) => Err(e),
            Ok(t) => match op {
                UnaryOp::Not => if int_model(t) {
                    Ok(Shape::Value(t))
                } else {
                    Err(LowerError::NotOperand)
                },
                UnaryOp::Neg => if int_model(t) || float_model(t) {
                    Ok(Shape::Value(t))
                } else {
                    Err(LowerError::NegOperand)
                },
            },
        },
    }
}

/// Lowering a field access: the object must be the address of a struct
/// with an LLVM type that has the field; the result is the field's address.
pub open spec fn field_shape(object: Result<Shape, LowerError>, name: String) -> Result<Shape, LowerError> {
    match object {
        Err(e) => Err(e),
        Ok(Shape::Value(_)) => Err(LowerError::FieldOnValue(name)),
        Ok(Shape::Pointer(t)) => match t {
            TypeModel::Struct { fields, .. } => match spec_find_field(fields, name@) {
                None => Err(LowerError::FieldNotFound(name)),
                Some(field_type) => if llvm_repr(t) is Some && fields.len() <= u32::MAX {
                    Ok(Shape::Pointer(field_type))
                } else {
                    Err(LowerError::UnsupportedType)
                },
            },
            _ => Err(LowerError::FieldOnNonStruct(name)),
        },
    }
}

/// Lowering `if`/`else`: the condition must load as a `bool`, both branches
/// must load, and the result is a value of the expected type, which must
/// have an LLVM type.
pub open spec fn if_else_shape(
    expected: TypeModel,
    condition: Result<Shape, LowerError>,
    then_branch: Result<Shape, LowerError>,
    else_branch: Result<Shape, LowerError>,
) -> Result<Shape, LowerError> {
    match condition {
        Err(e) => Err(e),
        Ok(c) => match materialized(c) {
            Err(e) => Err(e),
            Ok(ct) => if !(ct is Bool) {
                Err(LowerError::ConditionNotBool)
            } else {
                match then_branch {
                    Err(e) => Err(e),
                    Ok(ts) => match materialized(ts) {
                        Err(e) => Err(e),
                        Ok(_) => match else_branch {
                            Err(e) => Err(e),
                            Ok(es) => match materialized(es) {
                                Err(e) => Err(e),
                                Ok(_) => if llvm_repr(expected) is Some {
                                    Ok(Shape::Value(expected))
                                } else {
                                    Err(LowerError::UnsupportedType)
                                },
                            },
                        },
                    },
                }
            },
        },
    }
}

/// What lowering `e` yields when `slots` argument addresses are available,
/// `types` are the types of the arguments and locals, and the context
/// expects a value of type `expected`.
#[verifier::opaque]
pub open spec fn spec_lower(slots: nat, types: Seq<TypeModel>, expected: TypeModel, e: Expr) -> Result<
    Shape,
    LowerError,
>
    decreases e,
{
    match e {
        Expr::Argument(index) => if index >= slots {
            Err(LowerError::ArgumentOutOfBounds(index))
        } else if index >= types.len() {
            Err(LowerError::ArgumentTypeOutOfBounds(index))
        } else {
            Ok(Shape::Pointer(types[index as int]))
        },
        Expr::Constant(v) => match scalar_type(v) {
            Some(t) => Ok(Shape::Value(t)),
            None => Err(LowerError::UnsupportedConstant),
        },
        Expr::Field { object, name } => field_shape(spec_lower(slots, types, expected, *object), name),
        Expr::IfElse { condition, then_branch, else_branch } => if_else_shape(
            expected,
            spec_lower(slots, types, TypeModel::Bool, *condition),
            spec_lower(slots, types, expected, *then_branch),
            spec_lower(slots, types, expected, *else_branch),
        ),
        Expr::Add { lhs, rhs } => {
            let operand = spec_binary_operand_type(types, *lhs, *rhs, BinaryOp::Add);
            binary_shape(
                BinaryOp::Add,
                operand,
                spec_lower(slots, types, expected_of(operand), *lhs),
                spec_lower(slots, types, expected_of(operand), *rhs),
            )
        },
        Expr::Sub { lhs, rhs } => {
            let operand = spec_binary_operand_type(types, *lhs, *rhs, BinaryOp::Sub);
            binary_shape(
                BinaryOp::Sub,
                operand,
                spec_lower(slots, types, expected_of(operand), *lhs),
                spec_lower(slots, types, expected_of(operand), *rhs),
            )
        },
        Expr::Mul { lhs, rhs } => {
            let operand = spec_binary_operand_type(types, *lhs, *rhs, BinaryOp::Mul);
            binary_shape(
                BinaryOp::Mul,
                operand,
                spec_lower(slots, types, expected_of(operand), *lhs),
                spec_lower(slots, types, expected_of(operand), *rhs),
            )
        },
        Expr::Div { lhs, rhs } => {
            let operand = spec_binary_operand_type(types, *lhs, *rhs, BinaryOp::Div);
            binary_shape(
                BinaryOp::Div,
                operand,
                spec_lower(slots, types, expected_of(operand), *lhs),
                spec_lower(slots, types, expected_of(operand), *rhs),
            )
        },
        Expr::Rem { lhs, rhs } => {
            let operand = spec_binary_operand_type(types, *lhs, *rhs, BinaryOp::Rem);
            binary_shape(
                BinaryOp::Rem,
                operand,
                spec_lower(slots, types, expected_of(operand), *lhs),
                spec_lower(slots, types, expected_of(operand), *rhs),
            )
        },
        Expr::Eq { lhs, rhs } => {
            let operand = spec_binary_operand_type(types, *lhs, *rhs, BinaryOp::Eq);
            binary_shape(
                BinaryOp::Eq,
                operand,
                spec_lower(slots, types, expected_of(operand), *lhs),
                spec_lower(slots, types, expected_of(operand), *rhs),
            )
        },
        Expr::Ne { lhs, rhs } => {
            let operand = spec_binary_operand_type(types, *lhs, *rhs, BinaryOp::Ne);
            binary_shape(
                BinaryOp::Ne,
                operand,
                spec_lower(slots, types, expected_of(operand), *lhs),
                spec_lower(slots, types, expected_of(operand), *rhs),
            )
        },
        Expr::Lt { lhs, rhs } => {
            let operand = spec_binary_operand_type(types, *lhs, *rhs, BinaryOp::Lt);
            binary_shape(
                BinaryOp::Lt,
                operand,
                spec_lower(slots, types, expected_of(operand), *lhs),
                spec_lower(slots, types, expected_of(operand), *rhs),
            )
        },
        Expr::Le { lhs, rhs } => {
            let operand = spec_binary_operand_type(types, *lhs, *rhs, BinaryOp::Le);
            binary_shape(
                BinaryOp::Le,
                operand,
                spec_lower(slots, types, expected_of(operand), *lhs),
                spec_lower(slots, types, expected_of(operand), *rhs),
            )
        },
        Expr::Gt { lhs, rhs } => {
            let operand = spec_binary_operand_type(types, *lhs, *rhs, BinaryOp::Gt);
            binary_shape(
                BinaryOp::Gt,
                operand,
                spec_lower(slots, types, expected_of(operand), *lhs),
                spec_lower(slots, types, expected_of(operand), *rhs),
            )
        },
        Expr::Ge { lhs, rhs } => {
            let operand = spec_binary_operand_type(types, *lhs, *rhs, BinaryOp::Ge);
            binary_shape(
                BinaryOp::Ge,
                operand,
                spec_lower(slots, types, expected_of(operand), *lhs),
                spec_lower(slots, types, expected_of(operand), *rhs),
            )
        },
        Expr::And { lhs, rhs } => {
            let operand = spec_binary_operand_type(types, *lhs, *rhs, BinaryOp::And);
            binary_shape(
                BinaryOp::And,
                operand,
                spec_lower(slots, types, expected_of(operand), *lhs),
                spec_lower(slots, types, expected_of(operand), *rhs),
            )
        },
        Expr::Or { lhs, rhs } => {
            let operand = spec_binary_operand_type(types, *lhs, *rhs, BinaryOp::Or);
            binary_shape(
                BinaryOp::Or,
                operand,
                spec_lower(slots, types, expected_of(operand), *lhs),
                spec_lower(slots, types, expected_of(operand), *rhs),
            )
        },
        Expr::BitAnd { lhs, rhs } => {
            let operand = spec_binary_operand_type(types, *lhs, *rhs, BinaryOp::BitAnd);
            binary_shape(
                BinaryOp::BitAnd,
                operand,
                spec_lower(slots, types, expected_of(operand), *lhs),
                spec_lower(slots, types, expected_of(operand), *rhs),
            )
        },
        Expr::BitOr { lhs, rhs } => {
            let operand = spec_binary_operand_type(types, *lhs, *rhs, BinaryOp::BitOr);
            binary_shape(
                BinaryOp::BitOr,
                operand,
                spec_lower(slots, types, expected_of(operand), *lhs),
                spec_lower(slots, types, expected_of(operand), *rhs),
            )
        },
        Expr::BitXor { lhs, rhs } => {
            let operand = spec_binary_operand_type(types, *lhs, *rhs, BinaryOp::BitXor);
            binary_shape(
                BinaryOp::BitXor,
                operand,
                spec_lower(slots, types, expected_of(operand), *lhs),
                spec_lower(slots, types, expected_of(operand), *rhs),
            )
        },
        Expr::Shl { lhs, rhs } => {
            let operand = spec_binary_operand_type(types, *lhs, *rhs, BinaryOp::Shl);
            binary_shape(
                BinaryOp::Shl,
                operand,
                spec_lower(slots, types, expected_of(operand), *lhs),
                spec_lower(slots, types, expected_of(operand), *rhs),
            )
        },
        Expr::Shr { lhs, rhs } => {
            let operand = spec_binary_operand_type(types, *lhs, *rhs, BinaryOp::Shr);
            binary_shape(
                BinaryOp::Shr,
                operand,
                spec_lower(slots, types, expected_of(operand), *lhs),
                spec_lower(slots, types, expected_of(operand), *rhs),
            )
        },
        Expr::Not { operand } => unary_shape(UnaryOp::Not, spec_lower(slots, types, expected, *operand)),
        Expr::Neg { operand } => unary_shape(UnaryOp::Neg, spec_lower(slots, types, expected, *operand)),
        _ => Err(LowerError::UnsupportedExpression),
    }
}

/// The larger of two numbers.
pub open spec fn larger(a: nat, b: nat) -> nat {
    if a < b {
        b
    } else {
        a
    }
}

/// The height of the part of an expression that lowering walks.
pub open spec fn height(e: Expr) -> nat
    decreases e,
{
    match e {
        Expr::Field { object, .. } => height(*object) + 1,
        Expr::IfElse { condition, then_branch, else_branch } => larger(
            larger(height(*condition), height(*then_branch)),
            height(*else_branch),
        ) + 1,
        Expr::Add { lhs, rhs } => larger(height(*lhs), height(*rhs)) + 1,
        Expr::Sub { lhs, rhs } => larger(height(*lhs), height(*rhs)) + 1,
        Expr::Mul { lhs, rhs } => larger(height(*lhs), height(*rhs)) + 1,
        Expr::Div { lhs, rhs } => larger(height(*lhs), height(*rhs)) + 1,
        Expr::Rem { lhs, rhs } => larger(height(*lhs), height(*rhs)) + 1,
        Expr::Eq { lhs, rhs } => larger(height(*lhs), height(*rhs)) + 1,
        Expr::Ne { lhs, rhs } => larger(height(*lhs), height(*rhs)) + 1,
        Expr::Lt { lhs, rhs } => larger(height(*lhs), height(*rhs)) + 1,
        Expr::Le { lhs, rhs } => larger(height(*lhs), height(*rhs)) + 1,
        Expr::Gt { lhs, rhs } => larger(height(*lhs), height(*rhs)) + 1,
        Expr::Ge { lhs, rhs } => larger(height(*lhs), height(*rhs)) + 1,
        Expr::And { lhs, rhs } => larger(height(*lhs), height(*rhs)) + 1,
        Expr::Or { lhs, rhs } => larger(height(*lhs), height(*rhs)) + 1,
        Expr::BitAnd { lhs, rhs } => larger(height(*lhs), height(*rhs)) + 1,
        Expr::BitOr { lhs, rhs } => larger(height(*lhs), height(*rhs)) + 1,
        Expr::BitXor { lhs, rhs } => larger(height(*lhs), height(*rhs)) + 1,
        Expr::Shl { lhs, rhs } => larger(height(*lhs), height(*rhs)) + 1,
        Expr::Shr { lhs, rhs } => larger(height(*lhs), height(*rhs)) + 1,
        Expr::Not { operand } => height(*operand) + 1,
        Expr::Neg { operand } => height(*operand) + 1,
        _ => 0,
    }
}

/// A lowered expression: a value and its type, or the address of a value
/// and that value's type.
pub enum LoweredValue<'ctx> {
    Value { value: Built<BasicValueEnum<'ctx>>, type_info: TypeInfo },
    Pointer { pointer: Built<PointerValue<'ctx>>, type_info: TypeInfo },
}

/// The shape of a lowered expression.
pub open spec fn shape<'ctx>(v: LoweredValue<'ctx>) -> Shape {
    match v {
        LoweredValue::Value { type_info, .. } => Shape::Value(type_info@),
        LoweredValue::Pointer { type_info, .. } => Shape::Pointer(type_info@),
    }
}

/// How a lowered expression was built.
pub open spec fn lowered_term<'ctx>(v: LoweredValue<'ctx>) -> Term {
    match v {
        LoweredValue::Value { value, .. } => value.term(),
        LoweredValue::Pointer { pointer, .. } => pointer.term(),
    }
}

/// An address addresses a value of the LLVM type of its type, where that
/// type has one.
pub open spec fn lowered_ok<'ctx>(v: LoweredValue<'ctx>) -> bool {
    v matches LoweredValue::Pointer { pointer, type_info } ==> (llvm_repr(type_info@) is Some
        ==> addressed(pointer.term()) == llvm_repr(type_info@))
}

/// Each slot addresses a value of the LLVM type of its type, where that type
/// has one.
pub open spec fn slots_address<'ctx>(slots: Seq<Built<PointerValue<'ctx>>>, types: Seq<TypeModel>) -> bool {
    forall|i: int|
        #![trigger slots[i], types[i]]
        0 <= i < slots.len() && i < types.len() && llvm_repr(types[i]) is Some ==> addressed(
            slots[i].term(),
        ) == llvm_repr(types[i])
}

/// A loaded value and its type.
pub struct Materialized<'ctx> {
    pub value: Built<BasicValueEnum<'ctx>>,
    pub type_info: TypeInfo,
}

/// An executable lowering agrees with the specified one: the same shape, the
/// same error, or a failure of the LLVM bindings.
pub open spec fn lowered_agrees<'ctx>(r: Result<LoweredValue<'ctx>, LowerError>, s: Result<Shape, LowerError>) -> bool {
    match r {
        Ok(v) => s == Ok::<Shape, LowerError>(shape(v)),
        Err(LowerError::Backend(_)) => true,
        Err(e) => s == Err::<Shape, LowerError>(e),
    }
}

/// An executable load agrees with the specified one.
pub open spec fn materialized_agrees<'ctx>(r: Result<Materialized<'ctx>, LowerError>, s: Result<TypeModel, LowerError>) -> bool {
    match r {
        Ok(m) => s == Ok::<TypeModel, LowerError>(m.type_info@),
        Err(LowerError::Backend(_)) => true,
        Err(e) => s == Err::<TypeModel, LowerError>(e),
    }
}

/// A failure of the LLVM builder.
pub fn backend(error: BuilderError) -> (r: LowerError)
    ensures
        r is Backend,
{
    LowerError::Backend(builder_error_message(error))
}

/// A value that LLVM gave back with another kind than the one its type
/// lowers to.
pub fn unexpected_value() -> (r: LowerError)
    ensures
        r is Backend,
{
    LowerError::Backend("LLVM value of an unexpected kind".to_string())
}

/// The type of a scalar constant.
pub fn value_type(v: &Value) -> (r: TypeInfo)
    requires
        !(v is Array),
    ensures
        Some(r@) == scalar_type(*v),
{
    match v {
        Value::F32(_) => TypeInfo::F32,
        Value::F64(_) => TypeInfo::F64,
        Value::I8(_) => TypeInfo::I8,
        Value::I16(_) => TypeInfo::I16,
        Value::I32(_) => TypeInfo::I32,
        Value::I64(_) => TypeInfo::I64,
        Value::I128(_) => TypeInfo::I128,
        Value::U8(_) => TypeInfo::U8,
        Value::U16(_) => TypeInfo::U16,
        Value::U32(_) => TypeInfo::U32,
        Value::U64(_) => TypeInfo::U64,
        Value::U128(_) => TypeInfo::U128,
        Value::Usize(_) => TypeInfo::Usize,
        Value::Bool(_) => TypeInfo::Bool,
        Value::Array(_) => TypeInfo::Bool,
    }
}

/// Emits `instruction` on integer operands.
fn emit_int<'ctx>(builder: &Builder<'ctx>, instruction: IntInstruction, lhs: &Built<IntValue<'ctx>>, rhs: &Built<IntValue<'ctx>>) -> (r: Result<Built<IntValue<'ctx>>, BuilderError>)
    ensures
        r matches Ok(v) ==> v.term() == Term::Int(instruction, Box::new(lhs.term()), Box::new(rhs.term())),
{
    match instruction {
        IntInstruction::Add => int_add(builder, lhs, rhs),
        IntInstruction::Sub => int_sub(builder, lhs, rhs),
        IntInstruction::Mul => int_mul(builder, lhs, rhs),
        IntInstruction::SignedDiv => int_signed_div(builder, lhs, rhs),
        IntInstruction::UnsignedDiv => int_unsigned_div(builder, lhs, rhs),
        IntInstruction::SignedRem => int_signed_rem(builder, lhs, rhs),
        IntInstruction::UnsignedRem => int_unsigned_rem(builder, lhs, rhs),
        IntInstruction::Compare(predicate) => int_compare(builder, predicate, lhs, rhs),
        IntInstruction::And => int_and(builder, lhs, rhs),
        IntInstruction::Or => int_or(builder, lhs, rhs),
        IntInstruction::Xor => int_xor(builder, lhs, rhs),
        IntInstruction::Shl => int_shl(builder, lhs, rhs),
        IntInstruction::Shr { arithmetic } => int_shr(builder, lhs, rhs, arithmetic),
    }
}

/// Emits `instruction` on floating-point operands; a comparison gives a
/// `bool`.
fn emit_float<'ctx>(builder: &Builder<'ctx>, instruction: FloatInstruction, lhs: &Built<FloatValue<'ctx>>, rhs: &Built<FloatValue<'ctx>>) -> (r: Result<Built<BasicValueEnum<'ctx>>, BuilderError>)
    ensures
        r matches Ok(v) ==> v.term() == Term::Float(instruction, Box::new(lhs.term()), Box::new(rhs.term())),
{
    match instruction {
        FloatInstruction::Compare(predicate) => match float_compare(builder, predicate, lhs, rhs) {
            Ok(v) => Ok(from_int(&v)),
            Err(e) => Err(e),
        },
        _ => {
            let result = match instruction {
                FloatInstruction::Add => float_add(builder, lhs, rhs),
                FloatInstruction::Sub => float_sub(builder, lhs, rhs),
                FloatInstruction::Mul => float_mul(builder, lhs, rhs),
                FloatInstruction::Div => float_div(builder, lhs, rhs),
                _ => float_rem(builder, lhs, rhs),
            };
            match result {
                Ok(v) => Ok(from_float(&v)),
                Err(e) => Err(e),
            }
        },
    }
}

/// Lowers closure expressions into the function that a builder fills.
pub struct Lowering;

impl Lowering {
    /// Lowers `expr` where `arguments` are the slots and `argument_types` the
    /// types of the arguments and locals, and the context expects a value of
    /// type `expected_type`. The result says how it was built
    /// ([`spec_term`]).
    pub fn lower_expr<'ctx>(
        &self,
        context: &'ctx Context,
        builder: &Builder<'ctx>,
        function: Built<FunctionValue<'ctx>>,
        arguments: &[Built<PointerValue<'ctx>>],
        argument_types: &[TypeInfo],
        expected_type: &TypeInfo,
        expr: &Expr,
    ) -> (r: Result<LoweredValue<'ctx>, LowerError>)
        requires
            slots_address(arguments@, type_models(argument_types@)),
        ensures
            lowered_agrees(r, spec_lower(arguments@.len(), type_models(argument_types@), expected_type@, *expr)),
            r matches Ok(v) ==> lowered_ok(v),
            r matches Ok(v) ==> lowered_term(v) == spec_term(
                terms(arguments@),
                type_models(argument_types@),
                expected_type@,
                *expr,
            ),
            expr matches Expr::Argument(i) ==> (i < arguments@.len() && i < argument_types@.len() ==> (r
                matches Ok(LoweredValue::Pointer { pointer, type_info }) && pointer == arguments@[i as int]
                && type_info@ == argument_types@[i as int]@)),
            expr matches Expr::Argument(i) ==> (i >= arguments@.len() ==> r == Err::<
                LoweredValue<'ctx>,
                LowerError,
            >(LowerError::ArgumentOutOfBounds(*i))),
            expr matches Expr::Argument(i) ==> (i < arguments@.len() && i >= argument_types@.len() ==> r
                == Err::<LoweredValue<'ctx>, LowerError>(LowerError::ArgumentTypeOutOfBounds(*i))),
            expr matches Expr::Constant(v) ==> (!(v is Array || v is F32 || v is F64) ==> r is Ok),
            expr matches Expr::Constant(v) ==> (v is Array ==> r matches Err(LowerError::UnsupportedConstant)),
            unsupported_expression(*expr) ==> r matches Err(LowerError::UnsupportedExpression),
            binary_parts(*expr) matches Some((op, lhs, rhs)) ==> (spec_binary_operand_type(
                type_models(argument_types@),
                lhs,
                rhs,
                op,
            ) matches Err(e) ==> r == Err::<LoweredValue<'ctx>, LowerError>(LowerError::Operands(e))),
        decreases height(*expr) * 2 + 1,
    {
        proof {
            reveal(spec_lower);
        }
        match expr {
            Expr::Argument(index) => {
                if *index >= arguments.len() {
                    return Err(LowerError::ArgumentOutOfBounds(*index));
                }
                if *index >= argument_types.len() {
                    return Err(LowerError::ArgumentTypeOutOfBounds(*index));
                }
                proof {
                    assert(type_models(argument_types@)[*index as int] == argument_types@[*index as int]@);
                }
                Ok(
                    LoweredValue::Pointer {
                        pointer: arguments[*index],
                        type_info: clone_type(&argument_types[*index]),
                    },
                )
            },
            Expr::Constant(value) => self.lower_constant(context, builder, value),
            Expr::Field { object, name } => self.lower_field(
                context,
                builder,
                function,
                arguments,
                argument_types,
                expected_type,
                object,
                name,
            ),
            Expr::IfElse { condition, then_branch, else_branch } => self.lower_if_else(
                context,
                builder,
                function,
                arguments,
                argument_types,
                expected_type,
                condition,
                then_branch,
                else_branch,
            ),
            Expr::Add { lhs, rhs } => self.lower_binary(
                context,
                builder,
                function,
                arguments,
                argument_types,
                expected_type,
                lhs,
                rhs,
                BinaryOp::Add,
            ),
            Expr::Sub { lhs, rhs } => self.lower_binary(
                context,
                builder,
                function,
                arguments,
                argument_types,
                expected_type,
                lhs,
                rhs,
                BinaryOp::Sub,
            ),
            Expr::Mul { lhs, rhs } => self.lower_binary(
                context,
                builder,
                function,
                arguments,
                argument_types,
                expected_type,
                lhs,
                rhs,
                BinaryOp::Mul,
            ),
            Expr::Div { lhs, rhs } => self.lower_binary(
                context,
                builder,
                function,
                arguments,
                argument_types,
                expected_type,
                lhs,
                rhs,
                BinaryOp::Div,
            ),
            Expr::Rem { lhs, rhs } => self.lower_binary(
                context,
                builder,
                function,
                arguments,
                argument_types,
                expected_type,
                lhs,
                rhs,
                BinaryOp::Rem,
            ),
            Expr::Eq { lhs, rhs } => self.lower_binary(
                context,
                builder,
                function,
                arguments,
                argument_types,
                expected_type,
                lhs,
                rhs,
                BinaryOp::Eq,
            ),
            Expr::Ne { lhs, rhs } => self.lower_binary(
                context,
                builder,
                function,
                arguments,
                argument_types,
                expected_type,
                lhs,
                rhs,
                BinaryOp::Ne,
            ),
            Expr::Lt { lhs, rhs } => self.lower_binary(
                context,
                builder,
                function,
                arguments,
                argument_types,
                expected_type,
                lhs,
                rhs,
                BinaryOp::Lt,
            ),
            Expr::Le { lhs, rhs } => self.lower_binary(
                context,
                builder,
                function,
                arguments,
                argument_types,
                expected_type,
                lhs,
                rhs,
                BinaryOp::Le,
            ),
            Expr::Gt { lhs, rhs } => self.lower_binary(
                context,
                builder,
                function,
                arguments,
                argument_types,
                expected_type,
                lhs,
                rhs,
                BinaryOp::Gt,
            ),
            Expr::Ge { lhs, rhs } => self.lower_binary(
                context,
                builder,
                function,
                arguments,
                argument_types,
                expected_type,
                lhs,
                rhs,
                BinaryOp::Ge,
            ),
            Expr::BitAnd { lhs, rhs } => self.lower_binary(
                context,
                builder,
                function,
                arguments,
                argument_types,
                expected_type,
                lhs,
                rhs,
                BinaryOp::BitAnd,
            ),
            Expr::BitOr { lhs, rhs } => self.lower_binary(
                context,
                builder,
                function,
                arguments,
                argument_types,
                expected_type,
                lhs,
                rhs,
                BinaryOp::BitOr,
            ),
            Expr::BitXor { lhs, rhs } => self.lower_binary(
                context,
                builder,
                function,
                arguments,
                argument_types,
                expected_type,
                lhs,
                rhs,
                BinaryOp::BitXor,
            ),
            Expr::Shl { lhs, rhs } => self.lower_binary(
                context,
                builder,
                function,
                arguments,
                argument_types,
                expected_type,
                lhs,
                rhs,
                BinaryOp::Shl,
            ),
            Expr::Shr { lhs, rhs } => self.lower_binary(
                context,
                builder,
                function,
                arguments,
                argument_types,
                expected_type,
                lhs,
                rhs,
                BinaryOp::Shr,
            ),
            Expr::And { lhs, rhs } => self.lower_logical(
                context,
                builder,
                function,
                arguments,
                argument_types,
                expected_type,
                lhs,
                rhs,
                BinaryOp::And,
            ),
            Expr::Or { lhs, rhs } => self.lower_logical(
                context,
                builder,
                function,
                arguments,
                argument_types,
                expected_type,
                lhs,
                rhs,
                BinaryOp::Or,
            ),
            Expr::Not { operand } => self.lower_unary(
                context,
                builder,
                function,
                arguments,
                argument_types,
                expected_type,
                operand,
                UnaryOp::Not,
            ),
            Expr::Neg { operand } => self.lower_unary(
                context,
                builder,
                function,
                arguments,
                argument_types,
                expected_type,
                operand,
                UnaryOp::Neg,
            ),
            _ => Err(LowerError::UnsupportedExpression),
        }
    }

    /// Lowers the field `name` of `object`: the address of the first field
    /// so called in the struct that `object` addresses.
    fn lower_field<'ctx>(
        &self,
        context: &'ctx Context,
        builder: &Builder<'ctx>,
        function: Built<FunctionValue<'ctx>>,
        arguments: &[Built<PointerValue<'ctx>>],
        argument_types: &[TypeInfo],
        expected_type: &TypeInfo,
        object: &Expr,
        name: &String,
    ) -> (r: Result<LoweredValue<'ctx>, LowerError>)
        requires
            slots_address(arguments@, type_models(argument_types@)),
        ensures
            lowered_agrees(r, field_shape(spec_lower(arguments@.len(), type_models(argument_types@), expected_type@, *object), *name)),
            r matches Ok(v) ==> lowered_ok(v),
            r matches Ok(v) ==> (spec_lower(arguments@.len(), type_models(argument_types@), expected_type@, *object) matches Ok(
                Shape::Pointer(TypeModel::Struct { fields, .. }),
            ) && lowered_term(v) == Term::Field(
                Box::new(spec_term(terms(arguments@), type_models(argument_types@), expected_type@, *object)),
                field_position(fields, name@),
            )),
        decreases height(*object) * 2 + 2,
    {
        let object = match self.lower_expr(
            context,
            builder,
            function,
            arguments,
            argument_types,
            expected_type,
            object,
        ) {
            Ok(v) => v,
            Err(e) => {
                return Err(e);
            },
        };
        let (object_pointer, object_type) = match object {
            LoweredValue::Pointer { pointer, type_info } => (pointer, type_info),
            LoweredValue::Value { .. } => {
                return Err(LowerError::FieldOnValue(name.clone()));
            },
        };
        let (index, field_type, field_count) = match &object_type {
            TypeInfo::Struct { fields, .. } => match find_field(fields, name) {
                Some(index) => {
                    proof {
                        lemma_fields_model(fields@);
                    }
                    (index, clone_type(&fields[index].type_info), fields.len())
                },
                None => {
                    return Err(LowerError::FieldNotFound(name.clone()));
                },
            },
            _ => {
                return Err(LowerError::FieldOnNonStruct(name.clone()));
            },
        };
        if !has_llvm_type(&object_type) {
            return Err(LowerError::UnsupportedType);
        }
        if field_count > 0xffff_ffff {
            return Err(LowerError::UnsupportedType);
        }
        let position = index as u32;
        proof {
            lemma_field_address(object_pointer.term(), object_type@, name@, index as int);
        }
        match struct_gep(builder, &object_pointer, position) {
            Ok(pointer) => Ok(LoweredValue::Pointer { pointer, type_info: field_type }),
            Err(e) => Err(backend(e)),
        }
    }

    /// Lowers `if condition { then_branch } else { else_branch }` into three
    /// blocks that meet in a phi node, whose incoming values are the loaded
    /// values of the branches, the `then` one first.
    fn lower_if_else<'ctx>(
        &self,
        context: &'ctx Context,
        builder: &Builder<'ctx>,
        function: Built<FunctionValue<'ctx>>,
        arguments: &[Built<PointerValue<'ctx>>],
        argument_types: &[TypeInfo],
        expected_type: &TypeInfo,
        condition: &Expr,
        then_branch: &Expr,
        else_branch: &Expr,
    ) -> (r: Result<LoweredValue<'ctx>, LowerError>)
        requires
            slots_address(arguments@, type_models(argument_types@)),
        ensures
            lowered_agrees(
                r,
                if_else_shape(
                    expected_type@,
                    spec_lower(arguments@.len(), type_models(argument_types@), TypeModel::Bool, *condition),
                    spec_lower(arguments@.len(), type_models(argument_types@), expected_type@, *then_branch),
                    spec_lower(arguments@.len(), type_models(argument_types@), expected_type@, *else_branch),
                ),
            ),
            r matches Ok(v) ==> v is Value && lowered_term(v) == Term::Phi(
                Box::new(loaded_term(terms(arguments@), type_models(argument_types@), expected_type@, *then_branch)),
                Box::new(loaded_term(terms(arguments@), type_models(argument_types@), expected_type@, *else_branch)),
            ),
        decreases larger(larger(height(*condition), height(*then_branch)), height(*else_branch))
            * 2 + 2,
    {
        let bool_type = TypeInfo::Bool;
        let condition = match self.lower_expr(
            context,
            builder,
            function,
            arguments,
            argument_types,
            &bool_type,
            condition,
        ) {
            Ok(v) => v,
            Err(e) => {
                return Err(e);
            },
        };
        let condition = match self.materialize_value(context, builder, condition) {
            Ok(m) => m,
            Err(e) => {
                return Err(e);
            },
        };
        if !condition.type_info.is_bool() {
            return Err(LowerError::ConditionNotBool);
        }
        let condition = match as_int(&condition.value) {
            Some(value) => value,
            None => {
                return Err(unexpected_value());
            },
        };
        let then_block = append_block(context, &function, "then");
        let else_block = append_block(context, &function, "else");
        let merge_block = append_block(context, &function, "if_merge");
        if let Err(e) = conditional_branch(builder, &condition, then_block, else_block) {
            return Err(backend(e));
        }
        position_at_end(builder, then_block);
        let then_value = match self.lower_expr(
            context,
            builder,
            function,
            arguments,
            argument_types,
            expected_type,
            then_branch,
        ) {
            Ok(v) => v,
            Err(e) => {
                return Err(e);
            },
        };
        let then_value = match self.materialize_value(context, builder, then_value) {
            Ok(m) => m,
            Err(e) => {
                return Err(e);
            },
        };
        let then_end = match self.close_branch(builder, merge_block) {
            Ok(block) => block,
            Err(e) => {
                return Err(e);
            },
        };
        position_at_end(builder, else_block);
        let else_value = match self.lower_expr(
            context,
            builder,
            function,
            arguments,
            argument_types,
            expected_type,
            else_branch,
        ) {
            Ok(v) => v,
            Err(e) => {
                return Err(e);
            },
        };
        let else_value = match self.materialize_value(context, builder, else_value) {
            Ok(m) => m,
            Err(e) => {
                return Err(e);
            },
        };
        let else_end = match self.close_branch(builder, merge_block) {
            Ok(block) => block,
            Err(e) => {
                return Err(e);
            },
        };
        position_at_end(builder, merge_block);
        let result_type = match llvm_type(context, expected_type) {
            Ok(built) => built,
            Err(e) => {
                return Err(e);
            },
        };
        let node = match phi(builder, &result_type) {
            Ok(node) => node,
            Err(e) => {
                return Err(backend(e));
            },
        };
        let node = add_incoming(&node, &then_value.value, then_end, &else_value.value, else_end);
        Ok(LoweredValue::Value { value: phi_value(&node), type_info: clone_type(expected_type) })
    }

    /// Ends the block the builder is in with a jump to `merge_block`, unless
    /// it already ends; gives back that block. Which block that is, and
    /// whether it ends, is the builder's state, so only the kind of failure
    /// is stated.
    fn close_branch<'ctx>(&self, builder: &Builder<'ctx>, merge_block: BasicBlock<'ctx>) -> (r: Result<
        BasicBlock<'ctx>,
        LowerError,
    >)
        ensures
            r matches Err(e) ==> e is Backend,
    {
        let end = match insert_block(builder) {
            Some(block) => block,
            None => {
                return Err(LowerError::Backend("missing insertion block".to_string()));
            },
        };
        if terminator(end).is_none() {
            if let Err(e) = branch(builder, merge_block) {
                return Err(backend(e));
            }
        }
        Ok(end)
    }

    /// Lowers a scalar constant. Floating-point constants are built from
    /// the bits of their encoding.
    fn lower_constant<'ctx>(&self, context: &'ctx Context, builder: &Builder<'ctx>, value: &Value) -> (r:
        Result<LoweredValue<'ctx>, LowerError>)
        ensures
            lowered_agrees(
                r,
                match scalar_type(*value) {
                    Some(t) => Ok(Shape::Value(t)),
                    None => Err(LowerError::UnsupportedConstant),
                },
            ),
            !(*value is Array || *value is F32 || *value is F64) ==> r is Ok,
            *value is Array ==> r matches Err(LowerError::UnsupportedConstant),
            r matches Ok(v) ==> v is Value && lowered_term(v) == constant_term(*value),
    {
        let plan = match constant_plan(value) {
            Some(plan) => plan,
            None => {
                return Err(LowerError::UnsupportedConstant);
            },
        };
        let constant = match plan {
            ConstantPlan::Int { bits, value: word, sign_extend } => int_constant(
                context,
                bits,
                word,
                sign_extend,
            ),
            ConstantPlan::Wide { low, high } => wide_int_constant(context, low, high),
            ConstantPlan::Float { bits, raw } => {
                let pattern = int_constant(context, bits, raw, false);
                let float_type = if bits == 32 {
                    f32_type(context)
                } else {
                    f64_type(context)
                };
                match bit_cast(builder, &pattern, &float_type) {
                    Ok(v) => v,
                    Err(e) => {
                        return Err(backend(e));
                    },
                }
            },
        };
        Ok(LoweredValue::Value { value: constant, type_info: value_type(value) })
    }

    /// Lowers `operation operand`.
    fn lower_unary<'ctx>(
        &self,
        context: &'ctx Context,
        builder: &Builder<'ctx>,
        function: Built<FunctionValue<'ctx>>,
        arguments: &[Built<PointerValue<'ctx>>],
        argument_types: &[TypeInfo],
        expected_type: &TypeInfo,
        operand: &Expr,
        operation: UnaryOp,
    ) -> (r: Result<LoweredValue<'ctx>, LowerError>)
        requires
            slots_address(arguments@, type_models(argument_types@)),
        ensures
            lowered_agrees(r, unary_shape(operation, spec_lower(arguments@.len(), type_models(argument_types@), expected_type@, *operand))),
            r matches Ok(v) ==> v is Value && lowered_term(v) == (match operation {
                UnaryOp::Not => Term::IntNot(Box::new(loaded_term(terms(arguments@), type_models(argument_types@), expected_type@, *operand))),
                UnaryOp::Neg => if loaded_float(spec_lower(arguments@.len(), type_models(argument_types@), expected_type@, *operand)) {
                    Term::FloatNeg(Box::new(loaded_term(terms(arguments@), type_models(argument_types@), expected_type@, *operand)))
                } else {
                    Term::IntNeg(Box::new(loaded_term(terms(arguments@), type_models(argument_types@), expected_type@, *operand)))
                },
            }),
        decreases height(*operand) * 2 + 2,
    {
        let operand = match self.lower_expr(
            context,
            builder,
            function,
            arguments,
            argument_types,
            expected_type,
            operand,
        ) {
            Ok(v) => v,
            Err(e) => {
                return Err(e);
            },
        };
        let operand = match self.materialize_value(context, builder, operand) {
            Ok(m) => m,
            Err(e) => {
                return Err(e);
            },
        };
        match operation {
            UnaryOp::Not => {
                if !operand.type_info.is_integer() {
                    return Err(LowerError::NotOperand);
                }
                let value = match as_int(&operand.value) {
                    Some(v) => v,
                    None => {
                        return Err(unexpected_value());
                    },
                };
                match int_not(builder, &value) {
                    Ok(v) => Ok(LoweredValue::Value { value: from_int(&v), type_info: operand.type_info }),
                    Err(e) => Err(backend(e)),
                }
            },
            UnaryOp::Neg => {
                if operand.type_info.is_integer() {
                    let value = match as_int(&operand.value) {
                        Some(v) => v,
                        None => {
                            return Err(unexpected_value());
                        },
                    };
                    match int_neg(builder, &value) {
                        Ok(v) => Ok(
                            LoweredValue::Value { value: from_int(&v), type_info: operand.type_info },
                        ),
                        Err(e) => Err(backend(e)),
                    }
                } else if operand.type_info.is_float() {
                    let value = match as_float(&operand.value) {
                        Some(v) => v,
                        None => {
                            return Err(unexpected_value());
                        },
                    };
                    match float_neg(builder, &value) {
                        Ok(v) => Ok(
                            LoweredValue::Value { value: from_float(&v), type_info: operand.type_info },
                        ),
                        Err(e) => Err(backend(e)),
                    }
                } else {
                    Err(LowerError::NegOperand)
                }
            },
        }
    }

    /// Lowers `lhs operation rhs`: both operands at the operand type of the
    /// operator, then the instruction for their kind on the two loaded
    /// operands, left first.
    fn lower_binary<'ctx>(
        &self,
        context: &'ctx Context,
        builder: &Builder<'ctx>,
        function: Built<FunctionValue<'ctx>>,
        arguments: &[Built<PointerValue<'ctx>>],
        argument_types: &[TypeInfo],
        expected_type: &TypeInfo,
        lhs: &Expr,
        rhs: &Expr,
        operation: BinaryOp,
    ) -> (r: Result<LoweredValue<'ctx>, LowerError>)
        requires
            slots_address(arguments@, type_models(argument_types@)),
        ensures
            ({
                let operand = spec_binary_operand_type(type_models(argument_types@), *lhs, *rhs, operation);
                lowered_agrees(
                    r,
                    binary_shape(
                        operation,
                        operand,
                        spec_lower(arguments@.len(), type_models(argument_types@), expected_of(operand), *lhs),
                        spec_lower(arguments@.len(), type_models(argument_types@), expected_of(operand), *rhs),
                    ),
                )
            }),
            spec_binary_operand_type(type_models(argument_types@), *lhs, *rhs, operation) matches Err(e)
                ==> r == Err::<LoweredValue<'ctx>, LowerError>(LowerError::Operands(e)),
            r matches Ok(v) ==> v is Value && ({
                let operand = expected_of(
                    spec_binary_operand_type(type_models(argument_types@), *lhs, *rhs, operation),
                );
                lowered_term(v) == binary_term(
                    operation,
                    operand,
                    loaded_float(spec_lower(arguments@.len(), type_models(argument_types@), operand, *lhs)),
                    loaded_term(terms(arguments@), type_models(argument_types@), operand, *lhs),
                    loaded_term(terms(arguments@), type_models(argument_types@), operand, *rhs),
                )
            }),
        decreases larger(height(*lhs), height(*rhs)) * 2 + 2,
    {
        let operand_type = match binary_operand_type(
            argument_types,
            lhs,
            rhs,
            expected_type,
            &operation,
        ) {
            Ok(t) => t,
            Err(e) => {
                return Err(LowerError::Operands(e));
            },
        };
        let left = match self.lower_expr(
            context,
            builder,
            function,
            arguments,
            argument_types,
            &operand_type,
            lhs,
        ) {
            Ok(v) => v,
            Err(e) => {
                return Err(e);
            },
        };
        let left = match self.materialize_value(context, builder, left) {
            Ok(m) => m,
            Err(e) => {
                return Err(e);
            },
        };
        let right = match self.lower_expr(
            context,
            builder,
            function,
            arguments,
            argument_types,
            &operand_type,
            rhs,
        ) {
            Ok(v) => v,
            Err(e) => {
                return Err(e);
            },
        };
        let right = match self.materialize_value(context, builder, right) {
            Ok(m) => m,
            Err(e) => {
                return Err(e);
            },
        };
        let result_type = if comparison(operation) {
            TypeInfo::Bool
        } else {
            clone_type(&left.type_info)
        };
        if left.type_info.is_float() && right.type_info.is_float() {
            let (a, b) = match (as_float(&left.value), as_float(&right.value)) {
                (Some(a), Some(b)) => (a, b),
                _ => {
                    return Err(unexpected_value());
                },
            };
            match self.lower_float_binary(builder, &a, &b, operation) {
                Ok(value) => Ok(LoweredValue::Value { value, type_info: result_type }),
                Err(e) => Err(e),
            }
        } else if left.type_info.is_integer() && right.type_info.is_integer() {
            let (a, b) = match (as_int(&left.value), as_int(&right.value)) {
                (Some(a), Some(b)) => (a, b),
                _ => {
                    return Err(unexpected_value());
                },
            };
            match self.lower_int_binary(builder, &a, &b, operation, &operand_type) {
                Ok(value) => Ok(LoweredValue::Value { value: from_int(&value), type_info: result_type }),
                Err(e) => Err(e),
            }
        } else {
            Err(LowerError::BinaryOperands)
        }
    }

    /// Lowers `lhs && rhs` or `lhs || rhs` with the types and errors of the
    /// other binary operators, but evaluating `rhs` only where `lhs` does
    /// not decide: integer (`bool`) operands branch on `lhs` to a block
    /// that computes `rhs`, and the two paths meet in a phi node whose
    /// incoming values are the loaded operands, left first.
    fn lower_logical<'ctx>(
        &self,
        context: &'ctx Context,
        builder: &Builder<'ctx>,
        function: Built<FunctionValue<'ctx>>,
        arguments: &[Built<PointerValue<'ctx>>],
        argument_types: &[TypeInfo],
        expected_type: &TypeInfo,
        lhs: &Expr,
        rhs: &Expr,
        operation: BinaryOp,
    ) -> (r: Result<LoweredValue<'ctx>, LowerError>)
        requires
            operation is And || operation is Or,
            slots_address(arguments@, type_models(argument_types@)),
        ensures
            ({
                let operand = spec_binary_operand_type(type_models(argument_types@), *lhs, *rhs, operation);
                lowered_agrees(
                    r,
                    binary_shape(
                        operation,
                        operand,
                        spec_lower(arguments@.len(), type_models(argument_types@), expected_of(operand), *lhs),
                        spec_lower(arguments@.len(), type_models(argument_types@), expected_of(operand), *rhs),
                    ),
                )
            }),
            spec_binary_operand_type(type_models(argument_types@), *lhs, *rhs, operation) matches Err(e)
                ==> r == Err::<LoweredValue<'ctx>, LowerError>(LowerError::Operands(e)),
            r matches Ok(v) ==> v is Value && ({
                let operand = expected_of(
                    spec_binary_operand_type(type_models(argument_types@), *lhs, *rhs, operation),
                );
                lowered_term(v) == Term::Phi(
                    Box::new(loaded_term(terms(arguments@), type_models(argument_types@), operand, *lhs)),
                    Box::new(loaded_term(terms(arguments@), type_models(argument_types@), operand, *rhs)),
                )
            }),
        decreases larger(height(*lhs), height(*rhs)) * 2 + 2,
    {
        let operand_type = match binary_operand_type(
            argument_types,
            lhs,
            rhs,
            expected_type,
            &operation,
        ) {
            Ok(t) => t,
            Err(e) => {
                return Err(LowerError::Operands(e));
            },
        };
        let left = match self.lower_expr(
            context,
            builder,
            function,
            arguments,
            argument_types,
            &operand_type,
            lhs,
        ) {
            Ok(v) => v,
            Err(e) => {
                return Err(e);
            },
        };
        let left = match self.materialize_value(context, builder, left) {
            Ok(m) => m,
            Err(e) => {
                return Err(e);
            },
        };
        if !left.type_info.is_integer() {
            let right = match self.lower_expr(
                context,
                builder,
                function,
                arguments,
                argument_types,
                &operand_type,
                rhs,
            ) {
                Ok(v) => v,
                Err(e) => {
                    return Err(e);
                },
            };
            let right = match self.materialize_value(context, builder, right) {
                Ok(m) => m,
                Err(e) => {
                    return Err(e);
                },
            };
            if left.type_info.is_float() && right.type_info.is_float() {
                return Err(LowerError::FloatOperator);
            }
            return Err(LowerError::BinaryOperands);
        }
        let decider = match as_int(&left.value) {
            Some(v) => v,
            None => {
                return Err(unexpected_value());
            },
        };
        let left_end = match insert_block(builder) {
            Some(block) => block,
            None => {
                return Err(LowerError::Backend("missing insertion block".to_string()));
            },
        };
        let rhs_block = append_block(context, &function, "logic_rhs");
        let merge_block = append_block(context, &function, "logic_merge");
        let branched = if matches!(operation, BinaryOp::And) {
            conditional_branch(builder, &decider, rhs_block, merge_block)
        } else {
            conditional_branch(builder, &decider, merge_block, rhs_block)
        };
        if let Err(e) = branched {
            return Err(backend(e));
        }
        position_at_end(builder, rhs_block);
        let right = match self.lower_expr(
            context,
            builder,
            function,
            arguments,
            argument_types,
            &operand_type,
            rhs,
        ) {
            Ok(v) => v,
            Err(e) => {
                return Err(e);
            },
        };
        let right = match self.materialize_value(context, builder, right) {
            Ok(m) => m,
            Err(e) => {
                return Err(e);
            },
        };
        if !right.type_info.is_integer() {
            return Err(LowerError::BinaryOperands);
        }
        let right_end = match self.close_branch(builder, merge_block) {
            Ok(block) => block,
            Err(e) => {
                return Err(e);
            },
        };
        position_at_end(builder, merge_block);
        let result_type = match llvm_type(context, &left.type_info) {
            Ok(built) => built,
            Err(e) => {
                return Err(e);
            },
        };
        let node = match phi(builder, &result_type) {
            Ok(node) => node,
            Err(e) => {
                return Err(backend(e));
            },
        };
        let node = add_incoming(&node, &left.value, left_end, &right.value, right_end);
        Ok(LoweredValue::Value { value: phi_value(&node), type_info: left.type_info })
    }

    /// Emits the floating-point instruction for `operation` on `lhs` and
    /// `rhs`, in that order.
    fn lower_float_binary<'ctx>(
        &self,
        builder: &Builder<'ctx>,
        lhs: &Built<FloatValue<'ctx>>,
        rhs: &Built<FloatValue<'ctx>>,
        operation: BinaryOp,
    ) -> (r: Result<Built<BasicValueEnum<'ctx>>, LowerError>)
        ensures
            spec_float_instruction(operation) is None <==> r matches Err(LowerError::FloatOperator),
            r matches Err(e) ==> e is FloatOperator || e is Backend,
            r matches Ok(v) ==> spec_float_instruction(operation) matches Some(i) && v.term()
                == Term::Float(i, Box::new(lhs.term()), Box::new(rhs.term())),
    {
        match float_instruction(operation) {
            None => Err(LowerError::FloatOperator),
            Some(instruction) => match emit_float(builder, instruction, lhs, rhs) {
                Ok(value) => Ok(value),
                Err(e) => Err(backend(e)),
            },
        }
    }

    /// Emits the integer instruction for `operation` on `lhs` and `rhs`, in
    /// that order, of type `type_info`, whose signedness picks the
    /// instruction: unsigned for the unsigned integers and `bool`, signed
    /// otherwise. Only the builder can fail here.
    fn lower_int_binary<'ctx>(
        &self,
        builder: &Builder<'ctx>,
        lhs: &Built<IntValue<'ctx>>,
        rhs: &Built<IntValue<'ctx>>,
        operation: BinaryOp,
        type_info: &TypeInfo,
    ) -> (r: Result<Built<IntValue<'ctx>>, LowerError>)
        ensures
            r matches Err(e) ==> e is Backend,
            r matches Ok(v) ==> v.term() == Term::Int(
                spec_int_instruction(operation, unsigned_operand(type_info@)),
                Box::new(lhs.term()),
                Box::new(rhs.term()),
            ),
    {
        let unsigned = type_info.is_unsigned_integer() || type_info.is_bool();
        let instruction = int_instruction(operation, unsigned);
        match emit_int(builder, instruction, lhs, rhs) {
            Ok(value) => Ok(value),
            Err(e) => Err(backend(e)),
        }
    }

    /// Loads a lowered address; a value is already loaded.
    pub fn materialize_value<'ctx>(&self, context: &'ctx Context, builder: &Builder<'ctx>, value: LoweredValue<'ctx>) -> (r:
        Result<Materialized<'ctx>, LowerError>)
        requires
            lowered_ok(value),
        ensures
            materialized_agrees(r, materialized(shape(value))),
            value matches LoweredValue::Value { value: v, type_info: t } ==> r == Ok::<
                Materialized<'ctx>,
                LowerError,
            >((Materialized { value: v, type_info: t })),
            r matches Ok(m) ==> m.value.term() == (match value {
                LoweredValue::Value { value, .. } => value.term(),
                LoweredValue::Pointer { pointer, .. } => Term::Load(Box::new(pointer.term())),
            }),
    {
        match value {
            LoweredValue::Value { value, type_info } => Ok(Materialized { value, type_info }),
            LoweredValue::Pointer { pointer, type_info } => {
                if !has_llvm_type(&type_info) {
                    return Err(LowerError::UnsupportedType);
                }
                match load(builder, &pointer) {
                    Ok(value) => Ok(Materialized { value, type_info }),
                    Err(e) => Err(backend(e)),
                }
            },
        }
    }
}

} // verus!
