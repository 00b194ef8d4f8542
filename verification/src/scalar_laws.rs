//! Laws that say what the scalar operations compute, stated over the
//! mathematical integers the values stand for: integer arithmetic wraps to
//! the width of its type, division truncates, a cast keeps the value modulo
//! the width of the target, the instructions that the lowering picks compute
//! what the operators they lower compute, and a `for` counter steps by one.
use vstd::prelude::*;
use vstd::arithmetic::power2::pow2;
use crate::datum::Val;
use crate::interp::apply_binary;
use crate::llvm::IntCompare;
use crate::lowering::{
    ConstantPlan, IntInstruction, ScalarKind, is_comparison, scalar_kind, spec_constant_plan,
    spec_int_instruction, unsigned_operand,
};
use crate::program::{for_continues, successor};
use crate::scalar::{EvalError, spec_scalar_unary, spec_narrow, spec_one_like, spec_scalar_binary, spec_scalar_cast, spec_wide};
use crate::types::TypeInfo;
use crate::typing::{BinaryOp, TypeError, UnaryOp, spec_constant_type};
use crate::value::Value;

verus! {

/// The integer type of an integer scalar.
pub open spec fn integer_type(v: Value) -> Option<TypeInfo> {
    match v {
        Value::I8(_) => Some(TypeInfo::I8),
        Value::I16(_) => Some(TypeInfo::I16),
        Value::I32(_) => Some(TypeInfo::I32),
        Value::I64(_) => Some(TypeInfo::I64),
        Value::I128(_) => Some(TypeInfo::I128),
        Value::U8(_) => Some(TypeInfo::U8),
        Value::U16(_) => Some(TypeInfo::U16),
        Value::U32(_) => Some(TypeInfo::U32),
        Value::U64(_) => Some(TypeInfo::U64),
        Value::U128(_) => Some(TypeInfo::U128),
        Value::Usize(_) => Some(TypeInfo::Usize),
        _ => None,
    }
}

/// The mathematical integer an integer scalar stands for.
pub open spec fn integer_value(v: Value) -> int {
    match v {
        Value::I8(x) => x as int,
        Value::I16(x) => x as int,
        Value::I32(x) => x as int,
        Value::I64(x) => x as int,
        Value::I128(x) => x as int,
        Value::U8(x) => x as int,
        Value::U16(x) => x as int,
        Value::U32(x) => x as int,
        Value::U64(x) => x as int,
        Value::U128(x) => x as int,
        Value::Usize(x) => x as int,
        _ => 0,
    }
}

/// How many values an integer type has: two to the power of its width.
pub open spec fn type_modulus(t: TypeInfo) -> int {
    match t {
        TypeInfo::I8 | TypeInfo::U8 => 0x100,
        TypeInfo::I16 | TypeInfo::U16 => 0x1_0000,
        TypeInfo::I32 | TypeInfo::U32 => 0x1_0000_0000,
        TypeInfo::I64 | TypeInfo::U64 => 0x1_0000_0000_0000_0000int,
        TypeInfo::I128 | TypeInfo::U128 => 0x1_0000_0000_0000_0000_0000_0000_0000_0000int,
        TypeInfo::Usize => usize::MAX + 1,
        _ => 1,
    }
}

/// Whether an integer type is signed.
pub open spec fn type_signed(t: TypeInfo) -> bool {
    t is I8 || t is I16 || t is I32 || t is I64 || t is I128
}

/// The integer of a type with `modulus` values, signed ones when `signed`,
/// that is equal to `x` modulo `modulus`: in `[-modulus / 2, modulus / 2)`
/// when signed, in `[0, modulus)` otherwise.
pub open spec fn wrap(x: int, modulus: int, signed: bool) -> int {
    let r = x % modulus;
    if signed && r >= modulus / 2 {
        r - modulus
    } else {
        r
    }
}

/// The mathematical result of an arithmetic operator.
pub open spec fn arithmetic(op: BinaryOp, x: int, y: int) -> int {
    match op {
        BinaryOp::Add => x + y,
        BinaryOp::Sub => x - y,
        _ => x * y,
    }
}

/// Reducing a sum of two numbers of `[0, m)` modulo `m`.
proof fn lemma_mod_once(s: int, m: int)
    requires
        0 < m,
        -m <= s < 2 * m,
    ensures
        s % m == (if s >= m {
            s - m
        } else if s < 0 {
            s + m
        } else {
            s
        }),
{
    if s >= m {
        vstd::arithmetic::div_mod::lemma_fundamental_div_mod(s, m);
        assert(s / m == 1) by (nonlinear_arith)
            requires
                m <= s < 2 * m,
                s == m * (s / m) + s % m,
                0 <= s % m < m,
        ;
    } else if s < 0 {
        vstd::arithmetic::div_mod::lemma_fundamental_div_mod(s, m);
        assert(s / m == -1) by (nonlinear_arith)
            requires
                -m <= s < 0,
                s == m * (s / m) + s % m,
                0 <= s % m < m,
        ;
    } else {
        vstd::arithmetic::div_mod::lemma_small_mod(s as nat, m as nat);
    }
}

/// A remainder modulo `m` is in `[0, m)`.
proof fn lemma_mod_range(x: int, m: int)
    requires
        0 < m,
    ensures
        0 <= x % m < m,
{
    vstd::arithmetic::div_mod::lemma_mod_bound(x, m);
}

/// `+`, `-` and `*` on `i8` wrap to its width.
proof fn lemma_arithmetic_i8(op: BinaryOp, x: i8, y: i8)
    requires
        op is Add || op is Sub || op is Mul,
    ensures
        spec_scalar_binary(op, Value::I8(x), Value::I8(y)) matches Ok(Value::I8(v)) && v as int == wrap(
            arithmetic(op, x as int, y as int),
            0x100,
            true,
        ),
{
    let m: int = 0x100;
    let p = arithmetic(op, x as int, y as int);
    lemma_mod_range(p, m);
    if op is Add || op is Sub {
        lemma_mod_once(p, m);
    }
}

/// `+`, `-` and `*` on `i16` wrap to its width.
proof fn lemma_arithmetic_i16(op: BinaryOp, x: i16, y: i16)
    requires
        op is Add || op is Sub || op is Mul,
    ensures
        spec_scalar_binary(op, Value::I16(x), Value::I16(y)) matches Ok(Value::I16(v)) && v as int == wrap(
            arithmetic(op, x as int, y as int),
            0x1_0000,
            true,
        ),
{
    let m: int = 0x1_0000;
    let p = arithmetic(op, x as int, y as int);
    lemma_mod_range(p, m);
    if op is Add || op is Sub {
        lemma_mod_once(p, m);
    }
}

/// `+`, `-` and `*` on `i32` wrap to its width.
proof fn lemma_arithmetic_i32(op: BinaryOp, x: i32, y: i32)
    requires
        op is Add || op is Sub || op is Mul,
    ensures
        spec_scalar_binary(op, Value::I32(x), Value::I32(y)) matches Ok(Value::I32(v)) && v as int == wrap(
            arithmetic(op, x as int, y as int),
            0x1_0000_0000,
            true,
        ),
{
    let m: int = 0x1_0000_0000;
    let p = arithmetic(op, x as int, y as int);
    lemma_mod_range(p, m);
    if op is Add || op is Sub {
        lemma_mod_once(p, m);
    }
}

/// `+`, `-` and `*` on `i64` wrap to its width.
proof fn lemma_arithmetic_i64(op: BinaryOp, x: i64, y: i64)
    requires
        op is Add || op is Sub || op is Mul,
    ensures
        spec_scalar_binary(op, Value::I64(x), Value::I64(y)) matches Ok(Value::I64(v)) && v as int == wrap(
            arithmetic(op, x as int, y as int),
            0x1_0000_0000_0000_0000int,
            true,
        ),
{
    let m: int = 0x1_0000_0000_0000_0000int;
    let p = arithmetic(op, x as int, y as int);
    lemma_mod_range(p, m);
    if op is Add || op is Sub {
        lemma_mod_once(p, m);
    }
}

/// `+`, `-` and `*` on `i128` wrap to its width.
proof fn lemma_arithmetic_i128(op: BinaryOp, x: i128, y: i128)
    requires
        op is Add || op is Sub || op is Mul,
    ensures
        spec_scalar_binary(op, Value::I128(x), Value::I128(y)) matches Ok(Value::I128(v)) && v as int == wrap(
            arithmetic(op, x as int, y as int),
            0x1_0000_0000_0000_0000_0000_0000_0000_0000int,
            true,
        ),
{
    let m: int = 0x1_0000_0000_0000_0000_0000_0000_0000_0000int;
    let p = arithmetic(op, x as int, y as int);
    lemma_mod_range(p, m);
    if op is Add || op is Sub {
        lemma_mod_once(p, m);
    }
}

/// `+`, `-` and `*` on `u8` wrap to its width.
proof fn lemma_arithmetic_u8(op: BinaryOp, x: u8, y: u8)
    requires
        op is Add || op is Sub || op is Mul,
    ensures
        spec_scalar_binary(op, Value::U8(x), Value::U8(y)) matches Ok(Value::U8(v)) && v as int == wrap(
            arithmetic(op, x as int, y as int),
            0x100,
            false,
        ),
{
    let m: int = 0x100;
    let p = arithmetic(op, x as int, y as int);
    lemma_mod_range(p, m);
    if op is Add || op is Sub {
        lemma_mod_once(p, m);
    }
}

/// `+`, `-` and `*` on `u16` wrap to its width.
proof fn lemma_arithmetic_u16(op: BinaryOp, x: u16, y: u16)
    requires
        op is Add || op is Sub || op is Mul,
    ensures
        spec_scalar_binary(op, Value::U16(x), Value::U16(y)) matches Ok(Value::U16(v)) && v as int == wrap(
            arithmetic(op, x as int, y as int),
            0x1_0000,
            false,
        ),
{
    let m: int = 0x1_0000;
    let p = arithmetic(op, x as int, y as int);
    lemma_mod_range(p, m);
    if op is Add || op is Sub {
        lemma_mod_once(p, m);
    }
}

/// `+`, `-` and `*` on `u32` wrap to its width.
proof fn lemma_arithmetic_u32(op: BinaryOp, x: u32, y: u32)
    requires
        op is Add || op is Sub || op is Mul,
    ensures
        spec_scalar_binary(op, Value::U32(x), Value::U32(y)) matches Ok(Value::U32(v)) && v as int == wrap(
            arithmetic(op, x as int, y as int),
            0x1_0000_0000,
            false,
        ),
{
    let m: int = 0x1_0000_0000;
    let p = arithmetic(op, x as int, y as int);
    lemma_mod_range(p, m);
    if op is Add || op is Sub {
        lemma_mod_once(p, m);
    }
}

/// `+`, `-` and `*` on `u64` wrap to its width.
proof fn lemma_arithmetic_u64(op: BinaryOp, x: u64, y: u64)
    requires
        op is Add || op is Sub || op is Mul,
    ensures
        spec_scalar_binary(op, Value::U64(x), Value::U64(y)) matches Ok(Value::U64(v)) && v as int == wrap(
            arithmetic(op, x as int, y as int),
            0x1_0000_0000_0000_0000int,
            false,
        ),
{
    let m: int = 0x1_0000_0000_0000_0000int;
    let p = arithmetic(op, x as int, y as int);
    lemma_mod_range(p, m);
    if op is Add || op is Sub {
        lemma_mod_once(p, m);
    }
}

/// `+`, `-` and `*` on `u128` wrap to its width.
proof fn lemma_arithmetic_u128(op: BinaryOp, x: u128, y: u128)
    requires
        op is Add || op is Sub || op is Mul,
    ensures
        spec_scalar_binary(op, Value::U128(x), Value::U128(y)) matches Ok(Value::U128(v)) && v as int == wrap(
            arithmetic(op, x as int, y as int),
            0x1_0000_0000_0000_0000_0000_0000_0000_0000int,
            false,
        ),
{
    let m: int = 0x1_0000_0000_0000_0000_0000_0000_0000_0000int;
    let p = arithmetic(op, x as int, y as int);
    lemma_mod_range(p, m);
    if op is Add || op is Sub {
        lemma_mod_once(p, m);
    }
}

/// `+`, `-` and `*` on `usize` wrap to its width.
proof fn lemma_arithmetic_usize(op: BinaryOp, x: usize, y: usize)
    requires
        op is Add || op is Sub || op is Mul,
    ensures
        spec_scalar_binary(op, Value::Usize(x), Value::Usize(y)) matches Ok(Value::Usize(v)) && v as int == wrap(
            arithmetic(op, x as int, y as int),
            (usize::MAX + 1),
            false,
        ),
{
    let m: int = (usize::MAX + 1);
    let p = arithmetic(op, x as int, y as int);
    lemma_mod_range(p, m);
    if op is Add || op is Sub {
        lemma_mod_once(p, m);
    }
}

/// `a op b` for `+`, `-` and `*` on two integers of one type is the
/// mathematical result wrapped to the width of the type: for instance
/// `a * b` is `a·b` modulo two to the width, so `a * 0 == 0` and
/// `a * 1 == a`.
pub proof fn law_integer_arithmetic_wraps(op: BinaryOp, a: Value, b: Value)
    requires
        op is Add || op is Sub || op is Mul,
        integer_type(a) is Some,
        integer_type(a) == integer_type(b),
    ensures
        spec_scalar_binary(op, a, b) matches Ok(v) && integer_type(v) == integer_type(a)
            && integer_value(v) == wrap(
            arithmetic(op, integer_value(a), integer_value(b)),
            type_modulus(integer_type(a)->0),
            type_signed(integer_type(a)->0),
        ),
{
    match a {
        Value::I8(x) => {
            if let Value::I8(y) = b {
                lemma_arithmetic_i8(op, x, y);
            }
        },
        Value::I16(x) => {
            if let Value::I16(y) = b {
                lemma_arithmetic_i16(op, x, y);
            }
        },
        Value::I32(x) => {
            if let Value::I32(y) = b {
                lemma_arithmetic_i32(op, x, y);
            }
        },
        Value::I64(x) => {
            if let Value::I64(y) = b {
                lemma_arithmetic_i64(op, x, y);
            }
        },
        Value::I128(x) => {
            if let Value::I128(y) = b {
                lemma_arithmetic_i128(op, x, y);
            }
        },
        Value::U8(x) => {
            if let Value::U8(y) = b {
                lemma_arithmetic_u8(op, x, y);
            }
        },
        Value::U16(x) => {
            if let Value::U16(y) = b {
                lemma_arithmetic_u16(op, x, y);
            }
        },
        Value::U32(x) => {
            if let Value::U32(y) = b {
                lemma_arithmetic_u32(op, x, y);
            }
        },
        Value::U64(x) => {
            if let Value::U64(y) = b {
                lemma_arithmetic_u64(op, x, y);
            }
        },
        Value::U128(x) => {
            if let Value::U128(y) = b {
                lemma_arithmetic_u128(op, x, y);
            }
        },
        Value::Usize(x) => {
            if let Value::Usize(y) = b {
                lemma_arithmetic_usize(op, x, y);
            }
        },
        _ => {},
    }
}

/// The type of an integer or boolean scalar.
pub open spec fn scalar_type(v: Value) -> TypeInfo {
    if v is Bool {
        TypeInfo::Bool
    } else {
        integer_type(v)->0
    }
}

/// How many bit patterns the type of an integer or boolean scalar has: a
/// `bool` is one bit.
pub open spec fn pattern_modulus(v: Value) -> int {
    if v is Bool {
        2
    } else {
        type_modulus(integer_type(v)->0)
    }
}

/// The bit pattern of an integer or boolean scalar, read as a number in
/// `[0, pattern_modulus(v))`: the two's complement of a negative integer.
pub open spec fn pattern(v: Value) -> int {
    match v {
        Value::Bool(b) => if b {
            1
        } else {
            0
        },
        _ => wrap(integer_value(v), pattern_modulus(v), false),
    }
}

/// What an integer comparison with predicate `c` gives on the bit patterns
/// `x` and `y`, of `modulus` patterns each: the unsigned predicates compare
/// the patterns as numbers, the signed ones their two's-complement readings.
pub open spec fn compare_holds(c: IntCompare, x: int, y: int, modulus: int) -> bool {
    let sx = wrap(x, modulus, true);
    let sy = wrap(y, modulus, true);
    match c {
        IntCompare::Eq => x == y,
        IntCompare::Ne => x != y,
        IntCompare::Ult => x < y,
        IntCompare::Ule => x <= y,
        IntCompare::Ugt => x > y,
        IntCompare::Uge => x >= y,
        IntCompare::Slt => sx < sy,
        IntCompare::Sle => sx <= sy,
        IntCompare::Sgt => sx > sy,
        IntCompare::Sge => sx >= sy,
    }
}

/// The pattern of an integer in `[-m/2, m/2)` reads back as that integer.
proof fn lemma_signed_pattern(x: int, m: int)
    requires
        0 < m,
        m % 2 == 0,
        -(m / 2) <= x < m / 2,
    ensures
        0 <= wrap(x, m, false) < m,
        wrap(wrap(x, m, false), m, true) == x,
{
    lemma_mod_once(x, m);
    let p = wrap(x, m, false);
    lemma_mod_once(p, m);
}

/// The pattern of an integer in `[0, m)` is that integer.
proof fn lemma_unsigned_pattern(x: int, m: int)
    requires
        0 < m,
        0 <= x < m,
    ensures
        wrap(x, m, false) == x,
        0 <= wrap(x, m, false) < m,
{
    lemma_mod_once(x, m);
}

/// The comparison instruction for `op` on `i8` gives what `op` gives.
proof fn lemma_compare_i8(op: BinaryOp, x: i8, y: i8)
    requires
        is_comparison(op),
    ensures
        spec_int_instruction(op, unsigned_operand(TypeInfo::I8@)) matches IntInstruction::Compare(c)
            && spec_scalar_binary(op, Value::I8(x), Value::I8(y)) == Ok::<Value, crate::scalar::EvalError>(
            Value::Bool(compare_holds(c, pattern(Value::I8(x)), pattern(Value::I8(y)), 0x100)),
        ),
{
    lemma_signed_pattern(x as int, 0x100);
    lemma_signed_pattern(y as int, 0x100);
}

/// The comparison instruction for `op` on `i16` gives what `op` gives.
proof fn lemma_compare_i16(op: BinaryOp, x: i16, y: i16)
    requires
        is_comparison(op),
    ensures
        spec_int_instruction(op, unsigned_operand(TypeInfo::I16@)) matches IntInstruction::Compare(c)
            && spec_scalar_binary(op, Value::I16(x), Value::I16(y)) == Ok::<Value, crate::scalar::EvalError>(
            Value::Bool(compare_holds(c, pattern(Value::I16(x)), pattern(Value::I16(y)), 0x1_0000)),
        ),
{
    lemma_signed_pattern(x as int, 0x1_0000);
    lemma_signed_pattern(y as int, 0x1_0000);
}

/// The comparison instruction for `op` on `i32` gives what `op` gives.
proof fn lemma_compare_i32(op: BinaryOp, x: i32, y: i32)
    requires
        is_comparison(op),
    ensures
        spec_int_instruction(op, unsigned_operand(TypeInfo::I32@)) matches IntInstruction::Compare(c)
            && spec_scalar_binary(op, Value::I32(x), Value::I32(y)) == Ok::<Value, crate::scalar::EvalError>(
            Value::Bool(compare_holds(c, pattern(Value::I32(x)), pattern(Value::I32(y)), 0x1_0000_0000)),
        ),
{
    lemma_signed_pattern(x as int, 0x1_0000_0000);
    lemma_signed_pattern(y as int, 0x1_0000_0000);
}

/// The comparison instruction for `op` on `i64` gives what `op` gives.
proof fn lemma_compare_i64(op: BinaryOp, x: i64, y: i64)
    requires
        is_comparison(op),
    ensures
        spec_int_instruction(op, unsigned_operand(TypeInfo::I64@)) matches IntInstruction::Compare(c)
            && spec_scalar_binary(op, Value::I64(x), Value::I64(y)) == Ok::<Value, crate::scalar::EvalError>(
            Value::Bool(compare_holds(c, pattern(Value::I64(x)), pattern(Value::I64(y)), 0x1_0000_0000_0000_0000int)),
        ),
{
    lemma_signed_pattern(x as int, 0x1_0000_0000_0000_0000int);
    lemma_signed_pattern(y as int, 0x1_0000_0000_0000_0000int);
}

/// The comparison instruction for `op` on `i128` gives what `op` gives.
proof fn lemma_compare_i128(op: BinaryOp, x: i128, y: i128)
    requires
        is_comparison(op),
    ensures
        spec_int_instruction(op, unsigned_operand(TypeInfo::I128@)) matches IntInstruction::Compare(c)
            && spec_scalar_binary(op, Value::I128(x), Value::I128(y)) == Ok::<Value, crate::scalar::EvalError>(
            Value::Bool(compare_holds(c, pattern(Value::I128(x)), pattern(Value::I128(y)), 0x1_0000_0000_0000_0000_0000_0000_0000_0000int)),
        ),
{
    lemma_signed_pattern(x as int, 0x1_0000_0000_0000_0000_0000_0000_0000_0000int);
    lemma_signed_pattern(y as int, 0x1_0000_0000_0000_0000_0000_0000_0000_0000int);
}

/// The comparison instruction for `op` on `u8` gives what `op` gives.
proof fn lemma_compare_u8(op: BinaryOp, x: u8, y: u8)
    requires
        is_comparison(op),
    ensures
        spec_int_instruction(op, unsigned_operand(TypeInfo::U8@)) matches IntInstruction::Compare(c)
            && spec_scalar_binary(op, Value::U8(x), Value::U8(y)) == Ok::<Value, crate::scalar::EvalError>(
            Value::Bool(compare_holds(c, pattern(Value::U8(x)), pattern(Value::U8(y)), 0x100)),
        ),
{
    lemma_unsigned_pattern(x as int, 0x100);
    lemma_unsigned_pattern(y as int, 0x100);
}

/// The comparison instruction for `op` on `u16` gives what `op` gives.
proof fn lemma_compare_u16(op: BinaryOp, x: u16, y: u16)
    requires
        is_comparison(op),
    ensures
        spec_int_instruction(op, unsigned_operand(TypeInfo::U16@)) matches IntInstruction::Compare(c)
            && spec_scalar_binary(op, Value::U16(x), Value::U16(y)) == Ok::<Value, crate::scalar::EvalError>(
            Value::Bool(compare_holds(c, pattern(Value::U16(x)), pattern(Value::U16(y)), 0x1_0000)),
        ),
{
    lemma_unsigned_pattern(x as int, 0x1_0000);
    lemma_unsigned_pattern(y as int, 0x1_0000);
}

/// The comparison instruction for `op` on `u32` gives what `op` gives.
proof fn lemma_compare_u32(op: BinaryOp, x: u32, y: u32)
    requires
        is_comparison(op),
    ensures
        spec_int_instruction(op, unsigned_operand(TypeInfo::U32@)) matches IntInstruction::Compare(c)
            && spec_scalar_binary(op, Value::U32(x), Value::U32(y)) == Ok::<Value, crate::scalar::EvalError>(
            Value::Bool(compare_holds(c, pattern(Value::U32(x)), pattern(Value::U32(y)), 0x1_0000_0000)),
        ),
{
    lemma_unsigned_pattern(x as int, 0x1_0000_0000);
    lemma_unsigned_pattern(y as int, 0x1_0000_0000);
}

/// The comparison instruction for `op` on `u64` gives what `op` gives.
proof fn lemma_compare_u64(op: BinaryOp, x: u64, y: u64)
    requires
        is_comparison(op),
    ensures
        spec_int_instruction(op, unsigned_operand(TypeInfo::U64@)) matches IntInstruction::Compare(c)
            && spec_scalar_binary(op, Value::U64(x), Value::U64(y)) == Ok::<Value, crate::scalar::EvalError>(
            Value::Bool(compare_holds(c, pattern(Value::U64(x)), pattern(Value::U64(y)), 0x1_0000_0000_0000_0000int)),
        ),
{
    lemma_unsigned_pattern(x as int, 0x1_0000_0000_0000_0000int);
    lemma_unsigned_pattern(y as int, 0x1_0000_0000_0000_0000int);
}

/// The comparison instruction for `op` on `u128` gives what `op` gives.
proof fn lemma_compare_u128(op: BinaryOp, x: u128, y: u128)
    requires
        is_comparison(op),
    ensures
        spec_int_instruction(op, unsigned_operand(TypeInfo::U128@)) matches IntInstruction::Compare(c)
            && spec_scalar_binary(op, Value::U128(x), Value::U128(y)) == Ok::<Value, crate::scalar::EvalError>(
            Value::Bool(compare_holds(c, pattern(Value::U128(x)), pattern(Value::U128(y)), 0x1_0000_0000_0000_0000_0000_0000_0000_0000int)),
        ),
{
    lemma_unsigned_pattern(x as int, 0x1_0000_0000_0000_0000_0000_0000_0000_0000int);
    lemma_unsigned_pattern(y as int, 0x1_0000_0000_0000_0000_0000_0000_0000_0000int);
}

/// The comparison instruction for `op` on `usize` gives what `op` gives.
proof fn lemma_compare_usize(op: BinaryOp, x: usize, y: usize)
    requires
        is_comparison(op),
    ensures
        spec_int_instruction(op, unsigned_operand(TypeInfo::Usize@)) matches IntInstruction::Compare(c)
            && spec_scalar_binary(op, Value::Usize(x), Value::Usize(y)) == Ok::<Value, crate::scalar::EvalError>(
            Value::Bool(compare_holds(c, pattern(Value::Usize(x)), pattern(Value::Usize(y)), (usize::MAX + 1))),
        ),
{
    lemma_unsigned_pattern(x as int, (usize::MAX + 1));
    lemma_unsigned_pattern(y as int, (usize::MAX + 1));
}

/// A strict comparison is false on equal operands.
proof fn lemma_compare_bool(op: BinaryOp, x: bool, y: bool)
    requires
        is_comparison(op),
    ensures
        spec_int_instruction(op, unsigned_operand(TypeInfo::Bool@)) matches IntInstruction::Compare(c)
            && spec_scalar_binary(op, Value::Bool(x), Value::Bool(y)) == Ok::<Value, crate::scalar::EvalError>(
            Value::Bool(compare_holds(c, pattern(Value::Bool(x)), pattern(Value::Bool(y)), 2)),
        ),
{
}

/// The integer comparison instruction that the lowering picks for a
/// comparison operator, by the signedness of the operands' type, gives on
/// the operands' bit patterns the same boolean as the operator gives on the
/// operands: on integers of one type or on two `bool`s (which compare as
/// unsigned one-bit numbers, `false < true`). So, for instance, `x > x` is
/// false and `x >= x` is true for every type.
pub proof fn law_comparison_instruction(op: BinaryOp, a: Value, b: Value)
    requires
        is_comparison(op),
        (integer_type(a) is Some && integer_type(a) == integer_type(b)) || (a is Bool && b is Bool),
    ensures
        spec_int_instruction(op, unsigned_operand(scalar_type(a)@)) matches IntInstruction::Compare(c)
            && spec_scalar_binary(op, a, b) == Ok::<Value, crate::scalar::EvalError>(
            Value::Bool(compare_holds(c, pattern(a), pattern(b), pattern_modulus(a))),
        ),
{
    match a {
        Value::I8(x) => {
            if let Value::I8(y) = b {
                lemma_compare_i8(op, x, y);
            }
        },
        Value::I16(x) => {
            if let Value::I16(y) = b {
                lemma_compare_i16(op, x, y);
            }
        },
        Value::I32(x) => {
            if let Value::I32(y) = b {
                lemma_compare_i32(op, x, y);
            }
        },
        Value::I64(x) => {
            if let Value::I64(y) = b {
                lemma_compare_i64(op, x, y);
            }
        },
        Value::I128(x) => {
            if let Value::I128(y) = b {
                lemma_compare_i128(op, x, y);
            }
        },
        Value::U8(x) => {
            if let Value::U8(y) = b {
                lemma_compare_u8(op, x, y);
            }
        },
        Value::U16(x) => {
            if let Value::U16(y) = b {
                lemma_compare_u16(op, x, y);
            }
        },
        Value::U32(x) => {
            if let Value::U32(y) = b {
                lemma_compare_u32(op, x, y);
            }
        },
        Value::U64(x) => {
            if let Value::U64(y) = b {
                lemma_compare_u64(op, x, y);
            }
        },
        Value::U128(x) => {
            if let Value::U128(y) = b {
                lemma_compare_u128(op, x, y);
            }
        },
        Value::Usize(x) => {
            if let Value::Usize(y) = b {
                lemma_compare_usize(op, x, y);
            }
        },
        Value::Bool(x) => {
            if let Value::Bool(y) = b {
                lemma_compare_bool(op, x, y);
            }
        },
        _ => {},
    }
}

/// Whether `z` is a value of the integer type `t`.
pub open spec fn in_type_range(t: TypeInfo, z: int) -> bool {
    let m = type_modulus(t);
    if type_signed(t) {
        -(m / 2) <= z < m / 2
    } else {
        0 <= z < m
    }
}

/// An integer scalar's value is a value of its type.
proof fn lemma_value_in_range(a: Value)
    requires
        integer_type(a) is Some,
    ensures
        in_type_range(integer_type(a)->0, integer_value(a)),
        type_modulus(integer_type(a)->0) > 0,
        type_modulus(integer_type(a)->0) % 2 == 0,
{
}

/// Wrapping a value of the type to the type's width leaves it alone.
proof fn lemma_wrap_in_range(t: TypeInfo, z: int)
    requires
        type_modulus(t) > 0,
        type_modulus(t) % 2 == 0,
        in_type_range(t, z),
    ensures
        wrap(z, type_modulus(t), type_signed(t)) == z,
{
    lemma_mod_once(z, type_modulus(t));
}

/// The counter of a `for` loop steps by one: the step is the value one at
/// the counter's type, and the counter after `x` is `x + 1` wrapped to the
/// width of its type, which is `x + 1` itself below the type's maximum.
pub proof fn law_counter_steps_by_one(x: Value)
    requires
        integer_type(x) is Some,
    ensures
        spec_one_like(x) matches Some(one) && integer_type(one) == integer_type(x)
            && integer_value(one) == 1,
        successor(Val::Scalar(x)) matches Ok(Val::Scalar(v)) && integer_type(v) == integer_type(x)
            && integer_value(v) == wrap(
            integer_value(x) + 1,
            type_modulus(integer_type(x)->0),
            type_signed(integer_type(x)->0),
        ),
        in_type_range(integer_type(x)->0, integer_value(x) + 1) ==> (successor(
            Val::Scalar(x),
        ) matches Ok(Val::Scalar(v)) && integer_value(v) == integer_value(x) + 1),
{
    reveal(apply_binary);
    let one = spec_one_like(x)->0;
    law_integer_arithmetic_wraps(BinaryOp::Add, x, one);
    lemma_value_in_range(x);
    if in_type_range(integer_type(x)->0, integer_value(x) + 1) {
        lemma_wrap_in_range(integer_type(x)->0, integer_value(x) + 1);
    }
}

/// `<` and `==` on two integers of one type compare the integers.
proof fn lemma_integer_order(a: Value, b: Value)
    requires
        integer_type(a) is Some,
        integer_type(a) == integer_type(b),
    ensures
        spec_scalar_binary(BinaryOp::Lt, a, b) == Ok::<Value, crate::scalar::EvalError>(
            Value::Bool(integer_value(a) < integer_value(b)),
        ),
        spec_scalar_binary(BinaryOp::Eq, a, b) == Ok::<Value, crate::scalar::EvalError>(
            Value::Bool(integer_value(a) == integer_value(b)),
        ),
{
}

/// A `for` loop over integers of one type runs its body once more while the
/// counter is below the end (or equal to it, for an inclusive range).
pub proof fn law_for_condition(x: Value, end: Value, inclusive: bool)
    requires
        integer_type(x) is Some,
        integer_type(x) == integer_type(end),
    ensures
        for_continues(Val::Scalar(x), Val::Scalar(end), inclusive) == Ok::<bool, crate::scalar::EvalError>(
            integer_value(x) < integer_value(end) || (inclusive && integer_value(x)
                == integer_value(end)),
        ),
{
    reveal(apply_binary);
    lemma_integer_order(x, end);
}

/// The counter of a `for` loop after `k` steps from `start`.
pub open spec fn counter_after(start: Val, k: nat) -> Result<Val, crate::scalar::EvalError>
    decreases k,
{
    if k == 0 {
        Ok(start)
    } else {
        match counter_after(start, (k - 1) as nat) {
            Ok(c) => successor(c),
            Err(e) => Err(e),
        }
    }
}

/// After `k` steps from `start`, the counter of a `for` loop is
/// `start + k`, of the type of `start`, as long as that is a value of the
/// type.
pub proof fn law_counter_after(start: Value, k: nat)
    requires
        integer_type(start) is Some,
        in_type_range(integer_type(start)->0, integer_value(start) + k),
    ensures
        counter_after(Val::Scalar(start), k) matches Ok(Val::Scalar(v)) && integer_type(v)
            == integer_type(start) && integer_value(v) == integer_value(start) + k,
    decreases k,
{
    if k > 0 {
        lemma_value_in_range(start);
        law_counter_after(start, (k - 1) as nat);
        let c = counter_after(Val::Scalar(start), (k - 1) as nat)->Ok_0->Scalar_0;
        law_counter_steps_by_one(c);
    }
}

/// A `for` loop over `start..end`, on integers of one type with
/// `start <= end`, runs its body exactly `end - start` times: after `k`
/// steps the counter is `start + k`, and the loop goes on for every `k`
/// below `end - start` and stops at `end - start`. Over `start..=end` it
/// goes on at `end - start` too, once more, with the counter equal to `end`
/// (after which the loop stops without stepping past `end`).
pub proof fn law_for_runs(start: Value, end: Value, inclusive: bool, k: nat)
    requires
        integer_type(start) is Some,
        integer_type(start) == integer_type(end),
        integer_value(start) <= integer_value(end),
        k <= integer_value(end) - integer_value(start),
    ensures
        counter_after(Val::Scalar(start), k) matches Ok(c) && c is Scalar
            && integer_value(c->Scalar_0) == integer_value(start) + k && for_continues(
            c,
            Val::Scalar(end),
            inclusive,
        ) == Ok::<bool, crate::scalar::EvalError>(
            k < integer_value(end) - integer_value(start) || (inclusive && k == integer_value(end)
                - integer_value(start)),
        ),
{
    lemma_value_in_range(start);
    lemma_value_in_range(end);
    law_counter_after(start, k);
    let c = counter_after(Val::Scalar(start), k)->Ok_0->Scalar_0;
    law_for_condition(c, end, inclusive);
}

/// The number a scalar that can be cast to an integer type stands for: an
/// integer's value, and `0` or `1` for a `bool`.
pub open spec fn source_value(a: Value) -> int {
    match a {
        Value::Bool(b) => if b {
            1
        } else {
            0
        },
        _ => integer_value(a),
    }
}

/// Whether `t` is an integer type.
pub open spec fn is_integer_type(t: TypeInfo) -> bool {
    t is I8 || t is I16 || t is I32 || t is I64 || t is I128 || t is U8 || t is U16 || t is U32
        || t is U64 || t is U128 || t is Usize
}

/// A negative 128-bit integer read as unsigned is that integer plus two to
/// the 128th.
proof fn lemma_sign_extend(z: i128)
    ensures
        z < 0 ==> (z as u128) as int == z + 0x1_0000_0000_0000_0000_0000_0000_0000_0000int,
{
    assert(z < 0 ==> (z as u128) == z + 0x1_0000_0000_0000_0000_0000_0000_0000_0000) by (bit_vector);
}

/// Widening to 128 bits keeps the value modulo two to the 128th.
proof fn lemma_wide(a: Value)
    requires
        integer_type(a) is Some || a is Bool,
    ensures
        spec_wide(a) matches Some(w) && w as int == source_value(a) % 0x1_0000_0000_0000_0000_0000_0000_0000_0000int,
{
    let p: int = 0x1_0000_0000_0000_0000_0000_0000_0000_0000int;
    match a {
        Value::I8(x) => {
            lemma_sign_extend(x as i128);
            lemma_mod_once(x as int, p);
        },
        Value::I16(x) => {
            lemma_sign_extend(x as i128);
            lemma_mod_once(x as int, p);
        },
        Value::I32(x) => {
            lemma_sign_extend(x as i128);
            lemma_mod_once(x as int, p);
        },
        Value::I64(x) => {
            lemma_sign_extend(x as i128);
            lemma_mod_once(x as int, p);
        },
        Value::I128(x) => {
            lemma_sign_extend(x as i128);
            lemma_mod_once(x as int, p);
        },
        Value::U8(x) => {
            lemma_mod_once(x as int, p);
        },
        Value::U16(x) => {
            lemma_mod_once(x as int, p);
        },
        Value::U32(x) => {
            lemma_mod_once(x as int, p);
        },
        Value::U64(x) => {
            lemma_mod_once(x as int, p);
        },
        Value::U128(x) => {
            lemma_mod_once(x as int, p);
        },
        Value::Usize(x) => {
            lemma_mod_once(x as int, p);
        },
        Value::Bool(_) => {
            lemma_mod_once(source_value(a), p);
        },
        _ => {},
    }
}

/// Narrowing a 128-bit pattern to an integer type reads its low bits at
/// that type.
proof fn lemma_narrow(w: u128, t: TypeInfo)
    requires
        is_integer_type(t),
    ensures
        spec_narrow(w, t) matches Ok(v) && integer_type(v) == Some(t) && integer_value(v) == wrap(
            w as int,
            type_modulus(t),
            type_signed(t),
        ),
{
    match t {
        TypeInfo::U8 => {
            assert((w as u8) == w % 0x100) by (bit_vector);
        },
        TypeInfo::I8 => {
            assert((w as i8) == (if w % 0x100 >= 0x80 {
                w % 0x100 - 0x100
            } else {
                w % 0x100 + 0
            })) by (bit_vector);
        },
        TypeInfo::U16 => {
            assert((w as u16) == w % 0x1_0000) by (bit_vector);
        },
        TypeInfo::I16 => {
            assert((w as i16) == (if w % 0x1_0000 >= 0x8000 {
                w % 0x1_0000 - 0x1_0000
            } else {
                w % 0x1_0000 + 0
            })) by (bit_vector);
        },
        TypeInfo::U32 => {
            assert((w as u32) == w % 0x1_0000_0000) by (bit_vector);
        },
        TypeInfo::I32 => {
            assert((w as i32) == (if w % 0x1_0000_0000 >= 0x8000_0000 {
                w % 0x1_0000_0000 - 0x1_0000_0000
            } else {
                w % 0x1_0000_0000 + 0
            })) by (bit_vector);
        },
        TypeInfo::U64 => {
            assert((w as u64) == w % 0x1_0000_0000_0000_0000) by (bit_vector);
        },
        TypeInfo::I64 => {
            assert((w as i64) == (if w % 0x1_0000_0000_0000_0000 >= 0x8000_0000_0000_0000 {
                w % 0x1_0000_0000_0000_0000 - 0x1_0000_0000_0000_0000
            } else {
                w % 0x1_0000_0000_0000_0000 + 0
            })) by (bit_vector);
        },
        TypeInfo::U128 => {
            lemma_mod_once(w as int, type_modulus(t));
        },
        TypeInfo::I128 => {
            assert((w as i128) == (if w >= 0x8000_0000_0000_0000_0000_0000_0000_0000 {
                w - 0x1_0000_0000_0000_0000_0000_0000_0000_0000
            } else {
                w + 0
            })) by (bit_vector);
            lemma_mod_once(w as int, type_modulus(t));
        },
        TypeInfo::Usize => {
            assert((w as usize) == w % (1u128 << usize::BITS)) by (bit_vector);
            if usize::BITS == 32 {
                assert(1u128 << 32u32 == 0x1_0000_0000) by (bit_vector);
            } else {
                assert(1u128 << 64u32 == 0x1_0000_0000_0000_0000) by (bit_vector);
            }
        },
        _ => {},
    }
}

/// Reducing modulo two to the 128th first does not change a remainder
/// modulo the number of values of an integer type.
proof fn lemma_mod_divisor(x: int, t: TypeInfo)
    requires
        is_integer_type(t),
    ensures
        (x % 0x1_0000_0000_0000_0000_0000_0000_0000_0000int) % type_modulus(t) == x % type_modulus(t),
{
    let m = type_modulus(t);
    assert(usize::MAX == 0xffff_ffff || usize::MAX == 0xffff_ffff_ffff_ffff);
    let k: int = 0x1_0000_0000_0000_0000_0000_0000_0000_0000int / m;
    assert(m * k == 0x1_0000_0000_0000_0000_0000_0000_0000_0000int);
    vstd::arithmetic::div_mod::lemma_mod_mod(x, m, k);
}

/// A cast to an integer type keeps the value modulo two to the width of the
/// target: the cast of `a` to `t` is the value of `t` equal to `a` modulo
/// `2^bits(t)` (a signed source is sign-extended, then the result is
/// truncated), and a `bool` converts to `0` or `1`. So `-1i32 as u64` is
/// `2^64 - 1` and `300u16 as u8` is `44`.
pub proof fn law_cast_wraps(a: Value, t: TypeInfo)
    requires
        integer_type(a) is Some || a is Bool,
        is_integer_type(t),
    ensures
        spec_scalar_cast(a, t) matches Ok(v) && integer_type(v) == Some(t) && integer_value(v)
            == wrap(source_value(a), type_modulus(t), type_signed(t)),
{
    lemma_wide(a);
    let w = spec_wide(a)->0;
    lemma_narrow(w, t);
    lemma_mod_divisor(source_value(a), t);
}

/// The absolute value of `x`.
pub open spec fn magnitude(x: int) -> int {
    if x < 0 {
        -x
    } else {
        x
    }
}

/// `q` and `r` are the quotient and remainder of `x` by `y` in truncating
/// division: `x == q * y + r`, the remainder is smaller than the divisor in
/// magnitude and has the sign of `x` (or is zero).
pub open spec fn truncating_division(x: int, y: int, q: int, r: int) -> bool {
    &&& q * y + r == x
    &&& magnitude(r) < magnitude(y)
    &&& r == 0 || (r > 0) == (x > 0)
}

/// The quotient of truncating division: rounded toward zero.
pub open spec fn truncated_quotient(x: int, y: int) -> int {
    if (x >= 0) == (y > 0) {
        magnitude(x) / magnitude(y)
    } else {
        -(magnitude(x) / magnitude(y))
    }
}

/// Truncating division by a nonzero divisor exists, and its quotient is no
/// larger than the dividend in magnitude.
proof fn lemma_truncated_quotient(x: int, y: int)
    requires
        y != 0,
    ensures
        truncating_division(x, y, truncated_quotient(x, y), x - truncated_quotient(x, y) * y),
        magnitude(truncated_quotient(x, y)) <= magnitude(x),
        magnitude(y) == 1 ==> magnitude(truncated_quotient(x, y)) == magnitude(x),
        magnitude(y) >= 2 ==> 2 * magnitude(truncated_quotient(x, y)) <= magnitude(x),
        x - truncated_quotient(x, y) * y == (if x >= 0 {
            magnitude(x) % magnitude(y)
        } else {
            -(magnitude(x) % magnitude(y))
        }),
{
    let ax = magnitude(x);
    let ay = magnitude(y);
    let q0 = ax / ay;
    let r0 = ax % ay;
    vstd::arithmetic::div_mod::lemma_fundamental_div_mod(ax, ay);
    vstd::arithmetic::div_mod::lemma_mod_bound(ax, ay);
    assert(0 <= q0 <= ax) by (nonlinear_arith)
        requires
            ax == ay * q0 + r0,
            0 <= r0 < ay,
            ay >= 1,
            ax >= 0,
    ;
    if ay == 1 {
        assert(q0 == ax) by (nonlinear_arith)
            requires
                ax == ay * q0 + r0,
                0 <= r0 < ay,
                ay == 1,
        ;
    }
    if ay >= 2 {
        assert(2 * q0 <= ax) by (nonlinear_arith)
            requires
                ax == ay * q0 + r0,
                0 <= r0,
                ay >= 2,
                q0 >= 0,
        ;
    }
    let q = truncated_quotient(x, y);
    assert(q * y + (x - q * y) == x);
    if x >= 0 && y > 0 {
        assert(x - q * y == r0) by (nonlinear_arith)
            requires
                q == q0,
                y == ay,
                x == ax,
                ax == ay * q0 + r0,
        ;
    } else if x >= 0 {
        assert(x - q * y == r0) by (nonlinear_arith)
            requires
                q == -q0,
                y == -ay,
                x == ax,
                ax == ay * q0 + r0,
        ;
    } else if y > 0 {
        assert(x - q * y == -r0) by (nonlinear_arith)
            requires
                q == -q0,
                y == ay,
                x == -ax,
                ax == ay * q0 + r0,
        ;
    } else {
        assert(x - q * y == -r0) by (nonlinear_arith)
            requires
                q == q0,
                y == -ay,
                x == -ax,
                ax == ay * q0 + r0,
        ;
    }
}


/// `/` and `%` on `i8` are truncating division, and fault on a zero divisor
/// and on the one quotient out of range.
proof fn lemma_division_i8(x: i8, y: i8)
    ensures
        y == 0 || (x == i8::MIN && y == -1) ==> spec_scalar_binary(BinaryOp::Div, Value::I8(x), Value::I8(y))
            == Err::<Value, EvalError>(EvalError::DivisionFault) && spec_scalar_binary(
            BinaryOp::Rem,
            Value::I8(x),
            Value::I8(y),
        ) == Err::<Value, EvalError>(EvalError::DivisionFault),
        !(y == 0 || (x == i8::MIN && y == -1)) ==> spec_scalar_binary(BinaryOp::Div, Value::I8(x), Value::I8(y))
            == Ok::<Value, EvalError>(Value::I8(truncated_quotient(x as int, y as int) as i8))
            && spec_scalar_binary(BinaryOp::Rem, Value::I8(x), Value::I8(y)) == Ok::<Value, EvalError>(
            Value::I8((x - truncated_quotient(x as int, y as int) * y) as i8),
        ) && (truncated_quotient(x as int, y as int) as i8) as int == truncated_quotient(
            x as int,
            y as int,
        ) && ((x - truncated_quotient(x as int, y as int) * y) as i8) as int == x
            - truncated_quotient(x as int, y as int) * y,
{
    if y != 0 {
        lemma_truncated_quotient(x as int, y as int);
    }
}

/// `/` and `%` on `i16` are truncating division, and fault on a zero divisor
/// and on the one quotient out of range.
proof fn lemma_division_i16(x: i16, y: i16)
    ensures
        y == 0 || (x == i16::MIN && y == -1) ==> spec_scalar_binary(BinaryOp::Div, Value::I16(x), Value::I16(y))
            == Err::<Value, EvalError>(EvalError::DivisionFault) && spec_scalar_binary(
            BinaryOp::Rem,
            Value::I16(x),
            Value::I16(y),
        ) == Err::<Value, EvalError>(EvalError::DivisionFault),
        !(y == 0 || (x == i16::MIN && y == -1)) ==> spec_scalar_binary(BinaryOp::Div, Value::I16(x), Value::I16(y))
            == Ok::<Value, EvalError>(Value::I16(truncated_quotient(x as int, y as int) as i16))
            && spec_scalar_binary(BinaryOp::Rem, Value::I16(x), Value::I16(y)) == Ok::<Value, EvalError>(
            Value::I16((x - truncated_quotient(x as int, y as int) * y) as i16),
        ) && (truncated_quotient(x as int, y as int) as i16) as int == truncated_quotient(
            x as int,
            y as int,
        ) && ((x - truncated_quotient(x as int, y as int) * y) as i16) as int == x
            - truncated_quotient(x as int, y as int) * y,
{
    if y != 0 {
        lemma_truncated_quotient(x as int, y as int);
    }
}

/// `/` and `%` on `i32` are truncating division, and fault on a zero divisor
/// and on the one quotient out of range.
proof fn lemma_division_i32(x: i32, y: i32)
    ensures
        y == 0 || (x == i32::MIN && y == -1) ==> spec_scalar_binary(BinaryOp::Div, Value::I32(x), Value::I32(y))
            == Err::<Value, EvalError>(EvalError::DivisionFault) && spec_scalar_binary(
            BinaryOp::Rem,
            Value::I32(x),
            Value::I32(y),
        ) == Err::<Value, EvalError>(EvalError::DivisionFault),
        !(y == 0 || (x == i32::MIN && y == -1)) ==> spec_scalar_binary(BinaryOp::Div, Value::I32(x), Value::I32(y))
            == Ok::<Value, EvalError>(Value::I32(truncated_quotient(x as int, y as int) as i32))
            && spec_scalar_binary(BinaryOp::Rem, Value::I32(x), Value::I32(y)) == Ok::<Value, EvalError>(
            Value::I32((x - truncated_quotient(x as int, y as int) * y) as i32),
        ) && (truncated_quotient(x as int, y as int) as i32) as int == truncated_quotient(
            x as int,
            y as int,
        ) && ((x - truncated_quotient(x as int, y as int) * y) as i32) as int == x
            - truncated_quotient(x as int, y as int) * y,
{
    if y != 0 {
        lemma_truncated_quotient(x as int, y as int);
    }
}

/// `/` and `%` on `i64` are truncating division, and fault on a zero divisor
/// and on the one quotient out of range.
proof fn lemma_division_i64(x: i64, y: i64)
    ensures
        y == 0 || (x == i64::MIN && y == -1) ==> spec_scalar_binary(BinaryOp::Div, Value::I64(x), Value::I64(y))
            == Err::<Value, EvalError>(EvalError::DivisionFault) && spec_scalar_binary(
            BinaryOp::Rem,
            Value::I64(x),
            Value::I64(y),
        ) == Err::<Value, EvalError>(EvalError::DivisionFault),
        !(y == 0 || (x == i64::MIN && y == -1)) ==> spec_scalar_binary(BinaryOp::Div, Value::I64(x), Value::I64(y))
            == Ok::<Value, EvalError>(Value::I64(truncated_quotient(x as int, y as int) as i64))
            && spec_scalar_binary(BinaryOp::Rem, Value::I64(x), Value::I64(y)) == Ok::<Value, EvalError>(
            Value::I64((x - truncated_quotient(x as int, y as int) * y) as i64),
        ) && (truncated_quotient(x as int, y as int) as i64) as int == truncated_quotient(
            x as int,
            y as int,
        ) && ((x - truncated_quotient(x as int, y as int) * y) as i64) as int == x
            - truncated_quotient(x as int, y as int) * y,
{
    if y != 0 {
        lemma_truncated_quotient(x as int, y as int);
    }
}

/// `/` and `%` on `i128` are truncating division, and fault on a zero divisor
/// and on the one quotient out of range.
proof fn lemma_division_i128(x: i128, y: i128)
    ensures
        y == 0 || (x == i128::MIN && y == -1) ==> spec_scalar_binary(BinaryOp::Div, Value::I128(x), Value::I128(y))
            == Err::<Value, EvalError>(EvalError::DivisionFault) && spec_scalar_binary(
            BinaryOp::Rem,
            Value::I128(x),
            Value::I128(y),
        ) == Err::<Value, EvalError>(EvalError::DivisionFault),
        !(y == 0 || (x == i128::MIN && y == -1)) ==> spec_scalar_binary(BinaryOp::Div, Value::I128(x), Value::I128(y))
            == Ok::<Value, EvalError>(Value::I128(truncated_quotient(x as int, y as int) as i128))
            && spec_scalar_binary(BinaryOp::Rem, Value::I128(x), Value::I128(y)) == Ok::<Value, EvalError>(
            Value::I128((x - truncated_quotient(x as int, y as int) * y) as i128),
        ) && (truncated_quotient(x as int, y as int) as i128) as int == truncated_quotient(
            x as int,
            y as int,
        ) && ((x - truncated_quotient(x as int, y as int) * y) as i128) as int == x
            - truncated_quotient(x as int, y as int) * y,
{
    if y != 0 {
        lemma_truncated_quotient(x as int, y as int);
    }
}

/// `/` and `%` on `u8` are truncating division, and fault on a zero
/// divisor.
proof fn lemma_division_u8(x: u8, y: u8)
    ensures
        y == 0 ==> spec_scalar_binary(BinaryOp::Div, Value::U8(x), Value::U8(y))
            == Err::<Value, EvalError>(EvalError::DivisionFault) && spec_scalar_binary(
            BinaryOp::Rem,
            Value::U8(x),
            Value::U8(y),
        ) == Err::<Value, EvalError>(EvalError::DivisionFault),
        !(y == 0) ==> spec_scalar_binary(BinaryOp::Div, Value::U8(x), Value::U8(y))
            == Ok::<Value, EvalError>(Value::U8(truncated_quotient(x as int, y as int) as u8))
            && spec_scalar_binary(BinaryOp::Rem, Value::U8(x), Value::U8(y)) == Ok::<Value, EvalError>(
            Value::U8((x - truncated_quotient(x as int, y as int) * y) as u8),
        ) && (truncated_quotient(x as int, y as int) as u8) as int == truncated_quotient(
            x as int,
            y as int,
        ) && ((x - truncated_quotient(x as int, y as int) * y) as u8) as int == x
            - truncated_quotient(x as int, y as int) * y,
{
    if y != 0 {
        lemma_truncated_quotient(x as int, y as int);
    }
}

/// `/` and `%` on `u16` are truncating division, and fault on a zero
/// divisor.
proof fn lemma_division_u16(x: u16, y: u16)
    ensures
        y == 0 ==> spec_scalar_binary(BinaryOp::Div, Value::U16(x), Value::U16(y))
            == Err::<Value, EvalError>(EvalError::DivisionFault) && spec_scalar_binary(
            BinaryOp::Rem,
            Value::U16(x),
            Value::U16(y),
        ) == Err::<Value, EvalError>(EvalError::DivisionFault),
        !(y == 0) ==> spec_scalar_binary(BinaryOp::Div, Value::U16(x), Value::U16(y))
            == Ok::<Value, EvalError>(Value::U16(truncated_quotient(x as int, y as int) as u16))
            && spec_scalar_binary(BinaryOp::Rem, Value::U16(x), Value::U16(y)) == Ok::<Value, EvalError>(
            Value::U16((x - truncated_quotient(x as int, y as int) * y) as u16),
        ) && (truncated_quotient(x as int, y as int) as u16) as int == truncated_quotient(
            x as int,
            y as int,
        ) && ((x - truncated_quotient(x as int, y as int) * y) as u16) as int == x
            - truncated_quotient(x as int, y as int) * y,
{
    if y != 0 {
        lemma_truncated_quotient(x as int, y as int);
    }
}

/// `/` and `%` on `u32` are truncating division, and fault on a zero
/// divisor.
proof fn lemma_division_u32(x: u32, y: u32)
    ensures
        y == 0 ==> spec_scalar_binary(BinaryOp::Div, Value::U32(x), Value::U32(y))
            == Err::<Value, EvalError>(EvalError::DivisionFault) && spec_scalar_binary(
            BinaryOp::Rem,
            Value::U32(x),
            Value::U32(y),
        ) == Err::<Value, EvalError>(EvalError::DivisionFault),
        !(y == 0) ==> spec_scalar_binary(BinaryOp::Div, Value::U32(x), Value::U32(y))
            == Ok::<Value, EvalError>(Value::U32(truncated_quotient(x as int, y as int) as u32))
            && spec_scalar_binary(BinaryOp::Rem, Value::U32(x), Value::U32(y)) == Ok::<Value, EvalError>(
            Value::U32((x - truncated_quotient(x as int, y as int) * y) as u32),
        ) && (truncated_quotient(x as int, y as int) as u32) as int == truncated_quotient(
            x as int,
            y as int,
        ) && ((x - truncated_quotient(x as int, y as int) * y) as u32) as int == x
            - truncated_quotient(x as int, y as int) * y,
{
    if y != 0 {
        lemma_truncated_quotient(x as int, y as int);
    }
}

/// `/` and `%` on `u64` are truncating division, and fault on a zero
/// divisor.
proof fn lemma_division_u64(x: u64, y: u64)
    ensures
        y == 0 ==> spec_scalar_binary(BinaryOp::Div, Value::U64(x), Value::U64(y))
            == Err::<Value, EvalError>(EvalError::DivisionFault) && spec_scalar_binary(
            BinaryOp::Rem,
            Value::U64(x),
            Value::U64(y),
        ) == Err::<Value, EvalError>(EvalError::DivisionFault),
        !(y == 0) ==> spec_scalar_binary(BinaryOp::Div, Value::U64(x), Value::U64(y))
            == Ok::<Value, EvalError>(Value::U64(truncated_quotient(x as int, y as int) as u64))
            && spec_scalar_binary(BinaryOp::Rem, Value::U64(x), Value::U64(y)) == Ok::<Value, EvalError>(
            Value::U64((x - truncated_quotient(x as int, y as int) * y) as u64),
        ) && (truncated_quotient(x as int, y as int) as u64) as int == truncated_quotient(
            x as int,
            y as int,
        ) && ((x - truncated_quotient(x as int, y as int) * y) as u64) as int == x
            - truncated_quotient(x as int, y as int) * y,
{
    if y != 0 {
        lemma_truncated_quotient(x as int, y as int);
    }
}

/// `/` and `%` on `u128` are truncating division, and fault on a zero
/// divisor.
proof fn lemma_division_u128(x: u128, y: u128)
    ensures
        y == 0 ==> spec_scalar_binary(BinaryOp::Div, Value::U128(x), Value::U128(y))
            == Err::<Value, EvalError>(EvalError::DivisionFault) && spec_scalar_binary(
            BinaryOp::Rem,
            Value::U128(x),
            Value::U128(y),
        ) == Err::<Value, EvalError>(EvalError::DivisionFault),
        !(y == 0) ==> spec_scalar_binary(BinaryOp::Div, Value::U128(x), Value::U128(y))
            == Ok::<Value, EvalError>(Value::U128(truncated_quotient(x as int, y as int) as u128))
            && spec_scalar_binary(BinaryOp::Rem, Value::U128(x), Value::U128(y)) == Ok::<Value, EvalError>(
            Value::U128((x - truncated_quotient(x as int, y as int) * y) as u128),
        ) && (truncated_quotient(x as int, y as int) as u128) as int == truncated_quotient(
            x as int,
            y as int,
        ) && ((x - truncated_quotient(x as int, y as int) * y) as u128) as int == x
            - truncated_quotient(x as int, y as int) * y,
{
    if y != 0 {
        lemma_truncated_quotient(x as int, y as int);
    }
}

/// `/` and `%` on `usize` are truncating division, and fault on a zero
/// divisor.
proof fn lemma_division_usize(x: usize, y: usize)
    ensures
        y == 0 ==> spec_scalar_binary(BinaryOp::Div, Value::Usize(x), Value::Usize(y))
            == Err::<Value, EvalError>(EvalError::DivisionFault) && spec_scalar_binary(
            BinaryOp::Rem,
            Value::Usize(x),
            Value::Usize(y),
        ) == Err::<Value, EvalError>(EvalError::DivisionFault),
        !(y == 0) ==> spec_scalar_binary(BinaryOp::Div, Value::Usize(x), Value::Usize(y))
            == Ok::<Value, EvalError>(Value::Usize(truncated_quotient(x as int, y as int) as usize))
            && spec_scalar_binary(BinaryOp::Rem, Value::Usize(x), Value::Usize(y)) == Ok::<Value, EvalError>(
            Value::Usize((x - truncated_quotient(x as int, y as int) * y) as usize),
        ) && (truncated_quotient(x as int, y as int) as usize) as int == truncated_quotient(
            x as int,
            y as int,
        ) && ((x - truncated_quotient(x as int, y as int) * y) as usize) as int == x
            - truncated_quotient(x as int, y as int) * y,
{
    if y != 0 {
        lemma_truncated_quotient(x as int, y as int);
    }
}

/// `a / b` and `a % b` on two integers of one type are the quotient and
/// remainder of truncating division (`a == (a / b) * b + a % b`, the
/// remainder smaller than `b` in magnitude and of the sign of `a`); both
/// fault when `b` is zero, and, on a signed type, when `a` is the type's
/// minimum and `b` is `-1` (whose quotient is out of range).
pub proof fn law_integer_division(a: Value, b: Value)
    requires
        integer_type(a) is Some,
        integer_type(a) == integer_type(b),
    ensures
        integer_value(b) == 0 || (type_signed(integer_type(a)->0) && integer_value(a) == -(
        type_modulus(integer_type(a)->0) / 2) && integer_value(b) == -1) ==> spec_scalar_binary(
            BinaryOp::Div,
            a,
            b,
        ) == Err::<Value, EvalError>(EvalError::DivisionFault) && spec_scalar_binary(
            BinaryOp::Rem,
            a,
            b,
        ) == Err::<Value, EvalError>(EvalError::DivisionFault),
        !(integer_value(b) == 0 || (type_signed(integer_type(a)->0) && integer_value(a) == -(
        type_modulus(integer_type(a)->0) / 2) && integer_value(b) == -1)) ==> (spec_scalar_binary(
            BinaryOp::Div,
            a,
            b,
        ) matches Ok(q) && spec_scalar_binary(BinaryOp::Rem, a, b) matches Ok(r) && integer_type(q)
            == integer_type(a) && integer_type(r) == integer_type(a) && truncating_division(
            integer_value(a),
            integer_value(b),
            integer_value(q),
            integer_value(r),
        )),
{
    if integer_value(b) != 0 {
        lemma_truncated_quotient(integer_value(a), integer_value(b));
    }
    match a {
        Value::I8(x) => {
            if let Value::I8(y) = b {
                lemma_division_i8(x, y);
            }
        },
        Value::I16(x) => {
            if let Value::I16(y) = b {
                lemma_division_i16(x, y);
            }
        },
        Value::I32(x) => {
            if let Value::I32(y) = b {
                lemma_division_i32(x, y);
            }
        },
        Value::I64(x) => {
            if let Value::I64(y) = b {
                lemma_division_i64(x, y);
            }
        },
        Value::I128(x) => {
            if let Value::I128(y) = b {
                lemma_division_i128(x, y);
            }
        },
        Value::U8(x) => {
            if let Value::U8(y) = b {
                lemma_division_u8(x, y);
            }
        },
        Value::U16(x) => {
            if let Value::U16(y) = b {
                lemma_division_u16(x, y);
            }
        },
        Value::U32(x) => {
            if let Value::U32(y) = b {
                lemma_division_u32(x, y);
            }
        },
        Value::U64(x) => {
            if let Value::U64(y) = b {
                lemma_division_u64(x, y);
            }
        },
        Value::U128(x) => {
            if let Value::U128(y) = b {
                lemma_division_u128(x, y);
            }
        },
        Value::Usize(x) => {
            if let Value::Usize(y) = b {
                lemma_division_usize(x, y);
            }
        },
        _ => {},
    }
}

/// What an integer instruction of the arithmetic kind computes on the bit
/// patterns `x` and `y` of a type with `modulus` patterns: the pattern of the
/// result, or nothing where the instruction faults. Addition, subtraction and
/// multiplication wrap; the unsigned division and remainder divide the
/// patterns as numbers; the signed ones divide their two's-complement
/// readings, rounding toward zero, and fault on a zero divisor and on the
/// minimum divided by `-1`.
pub open spec fn arithmetic_instruction_result(instr: IntInstruction, x: int, y: int, modulus: int) -> Option<int> {
    let sx = wrap(x, modulus, true);
    let sy = wrap(y, modulus, true);
    let signed_fault = sy == 0 || (sx == -(modulus / 2) && sy == -1);
    match instr {
        IntInstruction::Add => Some(wrap(x + y, modulus, false)),
        IntInstruction::Sub => Some(wrap(x - y, modulus, false)),
        IntInstruction::Mul => Some(wrap(x * y, modulus, false)),
        IntInstruction::UnsignedDiv => if y == 0 {
            None
        } else {
            Some(x / y)
        },
        IntInstruction::UnsignedRem => if y == 0 {
            None
        } else {
            Some(x % y)
        },
        IntInstruction::SignedDiv => if signed_fault {
            None
        } else {
            Some(wrap(truncated_quotient(sx, sy), modulus, false))
        },
        IntInstruction::SignedRem => if signed_fault {
            None
        } else {
            Some(wrap(sx - truncated_quotient(sx, sy) * sy, modulus, false))
        },
        _ => None,
    }
}

/// Wrapping to signed or unsigned readings agrees modulo the width.
proof fn lemma_wrap_pattern(z: int, m: int, signed: bool)
    requires
        m > 0,
        m % 2 == 0,
    ensures
        wrap(wrap(z, m, signed), m, false) == wrap(z, m, false),
{
    lemma_mod_range(z, m);
    let r = z % m;
    lemma_mod_once(r, m);
    if signed && r >= m / 2 {
        lemma_mod_once(r - m, m);
    }
}

/// Addition, subtraction and multiplication commute with taking patterns.
proof fn lemma_pattern_arithmetic(op: BinaryOp, x: int, y: int, m: int)
    requires
        m > 0,
    ensures
        wrap(arithmetic(op, wrap(x, m, false), wrap(y, m, false)), m, false) == wrap(
            arithmetic(op, x, y),
            m,
            false,
        ),
{
    vstd::arithmetic::div_mod::lemma_add_mod_noop(x, y, m);
    vstd::arithmetic::div_mod::lemma_sub_mod_noop(x, y, m);
    vstd::arithmetic::div_mod::lemma_mul_mod_noop(x, y, m);
}

/// The instruction that the lowering picks for `+`, `-`, `*`, `/` or `%` on
/// two integers of one type computes, on the operands' bit patterns, the bit
/// pattern of what the operator gives, and faults exactly where the operator
/// does: so unsigned operands are divided by the unsigned instructions and
/// signed ones by the signed instructions.
#[verifier::rlimit(40)]
pub proof fn law_arithmetic_instruction(op: BinaryOp, a: Value, b: Value)
    requires
        op is Add || op is Sub || op is Mul || op is Div || op is Rem,
        integer_type(a) is Some,
        integer_type(a) == integer_type(b),
    ensures
        arithmetic_instruction_result(
            spec_int_instruction(op, unsigned_operand(scalar_type(a)@)),
            pattern(a),
            pattern(b),
            pattern_modulus(a),
        ) == (match spec_scalar_binary(op, a, b) {
            Ok(v) => Some(pattern(v)),
            Err(_) => None::<int>,
        }),
{
    let t = integer_type(a)->0;
    let m = type_modulus(t);
    lemma_value_in_range(a);
    lemma_value_in_range(b);
    if type_signed(t) {
        lemma_signed_pattern(integer_value(a), m);
        lemma_signed_pattern(integer_value(b), m);
    } else {
        lemma_unsigned_pattern(integer_value(a), m);
        lemma_unsigned_pattern(integer_value(b), m);
    }
    if op is Add || op is Sub || op is Mul {
        law_integer_arithmetic_wraps(op, a, b);
        lemma_wrap_pattern(arithmetic(op, integer_value(a), integer_value(b)), m, type_signed(t));
        lemma_pattern_arithmetic(op, integer_value(a), integer_value(b), m);
    } else {
        if integer_value(b) != 0 {
            lemma_truncated_quotient(integer_value(a), integer_value(b));
        }
        match a {
        Value::I8(x) => {
            if let Value::I8(y) = b {
                lemma_division_i8(x, y);
            }
        },
        Value::I16(x) => {
            if let Value::I16(y) = b {
                lemma_division_i16(x, y);
            }
        },
        Value::I32(x) => {
            if let Value::I32(y) = b {
                lemma_division_i32(x, y);
            }
        },
        Value::I64(x) => {
            if let Value::I64(y) = b {
                lemma_division_i64(x, y);
            }
        },
        Value::I128(x) => {
            if let Value::I128(y) = b {
                lemma_division_i128(x, y);
            }
        },
        Value::U8(x) => {
            if let Value::U8(y) = b {
                lemma_division_u8(x, y);
            }
        },
        Value::U16(x) => {
            if let Value::U16(y) = b {
                lemma_division_u16(x, y);
            }
        },
        Value::U32(x) => {
            if let Value::U32(y) = b {
                lemma_division_u32(x, y);
            }
        },
        Value::U64(x) => {
            if let Value::U64(y) = b {
                lemma_division_u64(x, y);
            }
        },
        Value::U128(x) => {
            if let Value::U128(y) = b {
                lemma_division_u128(x, y);
            }
        },
        Value::Usize(x) => {
            if let Value::Usize(y) = b {
                lemma_division_usize(x, y);
            }
        },
            _ => {},
        }
        if spec_scalar_binary(op, a, b) is Ok && !type_signed(t) {
            let v = spec_scalar_binary(op, a, b)->Ok_0;
            lemma_value_in_range(v);
            lemma_unsigned_pattern(integer_value(v), m);
        }
    }
}

/// Whether a scalar is an integer of a signed type.
pub open spec fn scalar_signed(a: Value) -> bool {
    integer_type(a) is Some && type_signed(integer_type(a)->0)
}

/// The bitwise complement of an integer is `-x - 1` on signed types and
/// `max - x` on unsigned ones.
proof fn lemma_complement(
    a8: i8,
    a16: i16,
    a32: i32,
    a64: i64,
    a128: i128,
    b8: u8,
    b16: u16,
    b32: u32,
    b64: u64,
    b128: u128,
    bs: usize,
)
    by (bit_vector)
    ensures
        !a8 == -a8 - 1,
        !a16 == -a16 - 1,
        !a32 == -a32 - 1,
        !a64 == -a64 - 1,
        !a128 == -a128 - 1,
        !b8 == 0xff - b8,
        !b16 == 0xffff - b16,
        !b32 == 0xffff_ffff - b32,
        !b64 == 0xffff_ffff_ffff_ffff - b64,
        !b128 == 0xffff_ffff_ffff_ffff_ffff_ffff_ffff_ffff - b128,
        usize::BITS == 32 ==> !bs == 0xffff_ffff - bs,
        usize::BITS == 64 ==> !bs == 0xffff_ffff_ffff_ffff - bs,
{
}

/// Negation and complement of an integer or a `bool` wrap to its width:
/// `-x` is `-x` modulo two to the width and `!x` is `-x - 1` modulo two to
/// the width (a `bool` being one unsigned bit, `-b` is `b` and `!b` is
/// `1 - b`).
pub proof fn law_unary_wraps(op: UnaryOp, a: Value)
    requires
        integer_type(a) is Some || a is Bool,
    ensures
        spec_scalar_unary(op, a) matches Ok(v) && scalar_type(v) == scalar_type(a) && (v is Bool
            == a is Bool) && source_value(v) == wrap(
            if op is Neg {
                -source_value(a)
            } else {
                -source_value(a) - 1
            },
            pattern_modulus(a),
            scalar_signed(a),
        ),
{
    let m = pattern_modulus(a);
    let z = if op is Neg {
        -source_value(a)
    } else {
        -source_value(a) - 1
    };
    if integer_type(a) is Some {
        lemma_value_in_range(a);
    }
    lemma_mod_once(z, m);
    match a {
        Value::I8(x) => lemma_complement(x, 0, 0, 0, 0, 0, 0, 0, 0, 0, 0),
        Value::I16(x) => lemma_complement(0, x, 0, 0, 0, 0, 0, 0, 0, 0, 0),
        Value::I32(x) => lemma_complement(0, 0, x, 0, 0, 0, 0, 0, 0, 0, 0),
        Value::I64(x) => lemma_complement(0, 0, 0, x, 0, 0, 0, 0, 0, 0, 0),
        Value::I128(x) => lemma_complement(0, 0, 0, 0, x, 0, 0, 0, 0, 0, 0),
        Value::U8(x) => lemma_complement(0, 0, 0, 0, 0, x, 0, 0, 0, 0, 0),
        Value::U16(x) => lemma_complement(0, 0, 0, 0, 0, 0, x, 0, 0, 0, 0),
        Value::U32(x) => lemma_complement(0, 0, 0, 0, 0, 0, 0, x, 0, 0, 0),
        Value::U64(x) => lemma_complement(0, 0, 0, 0, 0, 0, 0, 0, x, 0, 0),
        Value::U128(x) => lemma_complement(0, 0, 0, 0, 0, 0, 0, 0, 0, x, 0),
        Value::Usize(x) => lemma_complement(0, 0, 0, 0, 0, 0, 0, 0, 0, 0, x),
        _ => {},
    }
}

/// How the bitwise operators relate on two's-complement integers of each
/// width: `(x & y) + (x | y) == x + y` and `x ^ y == (x | y) - (x & y)`.
#[verifier::rlimit(100)]
proof fn lemma_bitwise(
    xi8: i8,
    yi8: i8,
    xi16: i16,
    yi16: i16,
    xi32: i32,
    yi32: i32,
    xi64: i64,
    yi64: i64,
    xi128: i128,
    yi128: i128,
    xu8: u8,
    yu8: u8,
    xu16: u16,
    yu16: u16,
    xu32: u32,
    yu32: u32,
    xu64: u64,
    yu64: u64,
    xu128: u128,
    yu128: u128,
    xusize: usize,
    yusize: usize,
)
    by (bit_vector)
    ensures
        (xi8 & yi8) + (xi8 | yi8) == xi8 + yi8,
        xi8 ^ yi8 == (xi8 | yi8) - (xi8 & yi8),
        (xi16 & yi16) + (xi16 | yi16) == xi16 + yi16,
        xi16 ^ yi16 == (xi16 | yi16) - (xi16 & yi16),
        (xi32 & yi32) + (xi32 | yi32) == xi32 + yi32,
        xi32 ^ yi32 == (xi32 | yi32) - (xi32 & yi32),
        (xi64 & yi64) + (xi64 | yi64) == xi64 + yi64,
        xi64 ^ yi64 == (xi64 | yi64) - (xi64 & yi64),
        (xi128 & yi128) + (xi128 | yi128) == xi128 + yi128,
        xi128 ^ yi128 == (xi128 | yi128) - (xi128 & yi128),
        (xu8 & yu8) + (xu8 | yu8) == xu8 + yu8,
        xu8 ^ yu8 == (xu8 | yu8) - (xu8 & yu8),
        (xu16 & yu16) + (xu16 | yu16) == xu16 + yu16,
        xu16 ^ yu16 == (xu16 | yu16) - (xu16 & yu16),
        (xu32 & yu32) + (xu32 | yu32) == xu32 + yu32,
        xu32 ^ yu32 == (xu32 | yu32) - (xu32 & yu32),
        (xu64 & yu64) + (xu64 | yu64) == xu64 + yu64,
        xu64 ^ yu64 == (xu64 | yu64) - (xu64 & yu64),
        (xu128 & yu128) + (xu128 | yu128) == xu128 + yu128,
        xu128 ^ yu128 == (xu128 | yu128) - (xu128 & yu128),
        (xusize & yusize) + (xusize | yusize) == xusize + yusize,
        xusize ^ yusize == (xusize | yusize) - (xusize & yusize),
{
}

/// `&`, `|` and `^` on two integers of one type, or on two `bool`s (as the
/// numbers `0` and `1`), give values of that type that add up as bitwise
/// operations do: `(a & b) + (a | b) == a + b` and
/// `a ^ b == (a | b) - (a & b)`. So `&` and `|` cannot trade places, and `^`
/// is neither of them.
pub proof fn law_bitwise(a: Value, b: Value)
    requires
        (integer_type(a) is Some && integer_type(a) == integer_type(b)) || (a is Bool && b is Bool),
    ensures
        spec_scalar_binary(BinaryOp::BitAnd, a, b) matches Ok(and) && spec_scalar_binary(
            BinaryOp::BitOr,
            a,
            b,
        ) matches Ok(or) && spec_scalar_binary(BinaryOp::BitXor, a, b) matches Ok(xor)
            && scalar_type(and) == scalar_type(a) && scalar_type(or) == scalar_type(a) && scalar_type(
            xor,
        ) == scalar_type(a) && (and is Bool) == (a is Bool) && (or is Bool) == (a is Bool) && (
        xor is Bool) == (a is Bool) && source_value(and) + source_value(or) == source_value(a)
            + source_value(b) && source_value(xor) == source_value(or) - source_value(and),
{
    match a {
        Value::I8(x) => {
            if let Value::I8(y) = b {
                lemma_bitwise(x, y, 0, 0, 0, 0, 0, 0, 0, 0, 0, 0, 0, 0, 0, 0, 0, 0, 0, 0, 0, 0);
            }
        },
        Value::I16(x) => {
            if let Value::I16(y) = b {
                lemma_bitwise(0, 0, x, y, 0, 0, 0, 0, 0, 0, 0, 0, 0, 0, 0, 0, 0, 0, 0, 0, 0, 0);
            }
        },
        Value::I32(x) => {
            if let Value::I32(y) = b {
                lemma_bitwise(0, 0, 0, 0, x, y, 0, 0, 0, 0, 0, 0, 0, 0, 0, 0, 0, 0, 0, 0, 0, 0);
            }
        },
        Value::I64(x) => {
            if let Value::I64(y) = b {
                lemma_bitwise(0, 0, 0, 0, 0, 0, x, y, 0, 0, 0, 0, 0, 0, 0, 0, 0, 0, 0, 0, 0, 0);
            }
        },
        Value::I128(x) => {
            if let Value::I128(y) = b {
                lemma_bitwise(0, 0, 0, 0, 0, 0, 0, 0, x, y, 0, 0, 0, 0, 0, 0, 0, 0, 0, 0, 0, 0);
            }
        },
        Value::U8(x) => {
            if let Value::U8(y) = b {
                lemma_bitwise(0, 0, 0, 0, 0, 0, 0, 0, 0, 0, x, y, 0, 0, 0, 0, 0, 0, 0, 0, 0, 0);
            }
        },
        Value::U16(x) => {
            if let Value::U16(y) = b {
                lemma_bitwise(0, 0, 0, 0, 0, 0, 0, 0, 0, 0, 0, 0, x, y, 0, 0, 0, 0, 0, 0, 0, 0);
            }
        },
        Value::U32(x) => {
            if let Value::U32(y) = b {
                lemma_bitwise(0, 0, 0, 0, 0, 0, 0, 0, 0, 0, 0, 0, 0, 0, x, y, 0, 0, 0, 0, 0, 0);
            }
        },
        Value::U64(x) => {
            if let Value::U64(y) = b {
                lemma_bitwise(0, 0, 0, 0, 0, 0, 0, 0, 0, 0, 0, 0, 0, 0, 0, 0, x, y, 0, 0, 0, 0);
            }
        },
        Value::U128(x) => {
            if let Value::U128(y) = b {
                lemma_bitwise(0, 0, 0, 0, 0, 0, 0, 0, 0, 0, 0, 0, 0, 0, 0, 0, 0, 0, x, y, 0, 0);
            }
        },
        Value::Usize(x) => {
            if let Value::Usize(y) = b {
                lemma_bitwise(0, 0, 0, 0, 0, 0, 0, 0, 0, 0, 0, 0, 0, 0, 0, 0, 0, 0, 0, 0, x, y);
            }
        },
        _ => {},
    }
}

/// On `bool`s, read as the numbers `0` and `1`, `+`, `-` and `*` are the
/// arithmetic of one unsigned bit: `+` and `-` are addition modulo two and
/// `*` is the product.
pub proof fn law_bool_arithmetic(op: BinaryOp, x: bool, y: bool)
    requires
        op is Add || op is Sub || op is Mul,
    ensures
        spec_scalar_binary(op, Value::Bool(x), Value::Bool(y)) matches Ok(v) && v is Bool
            && source_value(v) == wrap(
            arithmetic(op, source_value(Value::Bool(x)), source_value(Value::Bool(y))),
            2,
            false,
        ),
{
    lemma_mod_once(arithmetic(op, source_value(Value::Bool(x)), source_value(Value::Bool(y))), 2);
}

/// The width of an integer type in bits.
pub open spec fn type_bits(t: TypeInfo) -> int {
    match t {
        TypeInfo::I8 | TypeInfo::U8 => 8,
        TypeInfo::I16 | TypeInfo::U16 => 16,
        TypeInfo::I32 | TypeInfo::U32 => 32,
        TypeInfo::I64 | TypeInfo::U64 => 64,
        TypeInfo::I128 | TypeInfo::U128 => 128,
        _ => usize::BITS as int,
    }
}

/// `a << b` and `a >> b` on two integers of one type fault unless the shift
/// amount is at least zero and below the width of the type, and otherwise
/// give a value of that type. On unsigned types `a >> b` is `a / 2^b`, and
/// `a << b` is `a * 2^b` where that is a value of the type (for widths up
/// to 64 bits).
pub proof fn law_shift(a: Value, b: Value)
    requires
        integer_type(a) is Some,
        integer_type(a) == integer_type(b),
    ensures
        !(0 <= integer_value(b) < type_bits(integer_type(a)->0)) ==> spec_scalar_binary(
            BinaryOp::Shl,
            a,
            b,
        ) == Err::<Value, EvalError>(EvalError::ShiftOutOfRange) && spec_scalar_binary(
            BinaryOp::Shr,
            a,
            b,
        ) == Err::<Value, EvalError>(EvalError::ShiftOutOfRange),
        0 <= integer_value(b) < type_bits(integer_type(a)->0) ==> (spec_scalar_binary(
            BinaryOp::Shl,
            a,
            b,
        ) matches Ok(l) && integer_type(l) == integer_type(a)) && (spec_scalar_binary(
            BinaryOp::Shr,
            a,
            b,
        ) matches Ok(r) && integer_type(r) == integer_type(a)),
        !type_signed(integer_type(a)->0) && 0 <= integer_value(b) < type_bits(integer_type(a)->0)
            ==> (spec_scalar_binary(BinaryOp::Shr, a, b) matches Ok(r) && integer_value(r)
            == integer_value(a) / pow2(integer_value(b) as nat) as int),
        !type_signed(integer_type(a)->0) && !(a is U128) && 0 <= integer_value(b) < type_bits(
            integer_type(a)->0,
        ) && integer_value(a) * pow2(integer_value(b) as nat) < type_modulus(integer_type(a)->0)
            ==> (spec_scalar_binary(BinaryOp::Shl, a, b) matches Ok(l) && integer_value(l)
            == integer_value(a) * pow2(integer_value(b) as nat)),
{
    match a {
        Value::U8(x) => {
            if let Value::U8(y) = b {
                if y < u8::BITS {
                    vstd::bits::lemma_u8_shr_is_div(x, y);
                    if x * pow2(y as nat) <= u8::MAX {
                        vstd::bits::lemma_u8_shl_is_mul(x, y);
                    }
                }
            }
        },
        Value::U16(x) => {
            if let Value::U16(y) = b {
                if y < u16::BITS {
                    vstd::bits::lemma_u16_shr_is_div(x, y);
                    if x * pow2(y as nat) <= u16::MAX {
                        vstd::bits::lemma_u16_shl_is_mul(x, y);
                    }
                }
            }
        },
        Value::U32(x) => {
            if let Value::U32(y) = b {
                if y < u32::BITS {
                    vstd::bits::lemma_u32_shr_is_div(x, y);
                    if x * pow2(y as nat) <= u32::MAX {
                        vstd::bits::lemma_u32_shl_is_mul(x, y);
                    }
                }
            }
        },
        Value::U64(x) => {
            if let Value::U64(y) = b {
                if y < u64::BITS {
                    vstd::bits::lemma_u64_shr_is_div(x, y);
                    if x * pow2(y as nat) <= u64::MAX {
                        vstd::bits::lemma_u64_shl_is_mul(x, y);
                    }
                }
            }
        },
        Value::U128(x) => {
            if let Value::U128(y) = b {
                if y < u128::BITS {
                    vstd::bits::lemma_u128_shr_is_div(x, y);
                }
            }
        },
        Value::Usize(x) => {
            if let Value::Usize(y) = b {
                if y < usize::BITS {
                    vstd::bits::lemma_usize_shr_is_div(x, y);
                    if x * pow2(y as nat) <= usize::MAX {
                        vstd::bits::lemma_usize_shl_is_mul(x, y);
                    }
                }
            }
        },
        _ => {},
    }
}

/// A negative 64-bit integer read as unsigned is that integer plus two to
/// the 64th.
proof fn lemma_sign_extend_word(z: i64)
    ensures
        z < 0 ==> (z as u64) as int == z + 0x1_0000_0000_0000_0000int,
{
    assert(z < 0 ==> (z as u64) == z + 0x1_0000_0000_0000_0000) by (bit_vector);
}

/// A 128-bit pattern is its low word plus its high word times two to the
/// 64th.
proof fn lemma_split_words(w: u128)
    ensures
        (w as u64) + ((w >> 64u128) as u64) * 0x1_0000_0000_0000_0000int == w,
{
    assert((w as u64) + ((w >> 64u128) as u64) * 0x1_0000_0000_0000_0000 == w) by (bit_vector);
}

/// The LLVM constant that the lowering plans for an integer or a `bool` is
/// that value at the value's LLVM type: an integer constant of the type's
/// width whose low bits are the value's bit pattern, sign-extended exactly
/// when the type is signed, or, for the 128-bit types, two words that make
/// up the bit pattern.
pub proof fn law_constant_plan(v: Value)
    requires
        integer_type(v) is Some || v is Bool,
    ensures
        !(v is I128 || v is U128) ==> (spec_constant_plan(v) matches Some(
            ConstantPlan::Int { bits, value, sign_extend },
        ) && scalar_kind(scalar_type(v)@) == Some(ScalarKind::Int(bits)) && sign_extend
            == scalar_signed(v) && (value as int) % (pow2(bits as nat) as int) == source_value(v)
            % (pow2(bits as nat) as int)),
        (v is I128 || v is U128) ==> (spec_constant_plan(v) matches Some(
            ConstantPlan::Wide { low, high },
        ) && low + high * 0x1_0000_0000_0000_0000int == source_value(v)
            % 0x1_0000_0000_0000_0000_0000_0000_0000_0000int),
{
    vstd::arithmetic::power2::lemma2_to64();
    let p: int = 0x1_0000_0000_0000_0000_0000_0000_0000_0000int;
    let q: int = 0x1_0000_0000_0000_0000int;
    match v {
        Value::I8(x) => {
            lemma_sign_extend_word(x as i64);
            lemma_mod_once(x as int, q);
            vstd::arithmetic::div_mod::lemma_mod_mod(x as int, 0x100, 0x100_0000_0000_0000);
        },
        Value::I16(x) => {
            lemma_sign_extend_word(x as i64);
            lemma_mod_once(x as int, q);
            vstd::arithmetic::div_mod::lemma_mod_mod(x as int, 0x1_0000, 0x1_0000_0000_0000);
        },
        Value::I32(x) => {
            lemma_sign_extend_word(x as i64);
            lemma_mod_once(x as int, q);
            vstd::arithmetic::div_mod::lemma_mod_mod(x as int, 0x1_0000_0000, 0x1_0000_0000);
        },
        Value::I64(x) => {
            lemma_sign_extend_word(x);
            lemma_mod_once(x as int, q);
            lemma_mod_once((x as u64) as int, q);
        },
        Value::I128(x) => {
            lemma_sign_extend(x);
            lemma_mod_once(x as int, p);
            lemma_split_words(x as u128);
        },
        Value::U128(x) => {
            lemma_mod_once(x as int, p);
            lemma_split_words(x);
        },
        Value::Bool(_) => {
            lemma_mod_once(source_value(v), 2);
        },
        _ => {
            lemma_value_in_range(v);
            lemma_mod_once(integer_value(v), type_modulus(integer_type(v)->0));
            assert(usize::MAX == 0xffff_ffff || usize::MAX == 0xffff_ffff_ffff_ffff);
            lemma_mod_once(integer_value(v), q);
        },
    }
}

/// The type checker gives an integer or `bool` constant the type of its
/// value.
pub proof fn law_constant_type(v: Value)
    requires
        integer_type(v) is Some || v is Bool,
    ensures
        spec_constant_type(v) == Ok::<crate::types::TypeModel, TypeError>(scalar_type(v)@),
{
}

/// What a right-shift instruction computes on the bit pattern `x` of a type
/// with `modulus` patterns, shifted by `k`: a logical shift divides the
/// pattern by `2^k`; an arithmetic one divides its two's-complement reading,
/// rounding down, and gives the pattern of the result.
pub open spec fn right_shift_result(instr: IntInstruction, x: int, k: nat, modulus: int) -> Option<int> {
    match instr {
        IntInstruction::Shr { arithmetic } => if arithmetic {
            Some(wrap(wrap(x, modulus, true) / (pow2(k) as int), modulus, false))
        } else {
            Some(x / (pow2(k) as int))
        },
        _ => None,
    }
}

/// An arithmetic right shift of an `i8` is the logical shift of a
/// nonnegative one, and the complement of the shifted complement of a
/// negative one.
proof fn lemma_signed_shift_i8(x: i8, k: u8)
    by (bit_vector)
    ensures
        k < 8 && x >= 0 ==> x >> k >= 0 && (x >> k) as u8 == (x as u8) >> k,
        k < 8 && x < 0 ==> x >> k == !((!x) >> k) && !x >= 0,
{
}

/// An arithmetic right shift of an `i16` is the logical shift of a
/// nonnegative one, and the complement of the shifted complement of a
/// negative one.
proof fn lemma_signed_shift_i16(x: i16, k: u16)
    by (bit_vector)
    ensures
        k < 16 && x >= 0 ==> x >> k >= 0 && (x >> k) as u16 == (x as u16) >> k,
        k < 16 && x < 0 ==> x >> k == !((!x) >> k) && !x >= 0,
{
}

/// An arithmetic right shift of an `i32` is the logical shift of a
/// nonnegative one, and the complement of the shifted complement of a
/// negative one.
proof fn lemma_signed_shift_i32(x: i32, k: u32)
    by (bit_vector)
    ensures
        k < 32 && x >= 0 ==> x >> k >= 0 && (x >> k) as u32 == (x as u32) >> k,
        k < 32 && x < 0 ==> x >> k == !((!x) >> k) && !x >= 0,
{
}

/// An arithmetic right shift of an `i64` is the logical shift of a
/// nonnegative one, and the complement of the shifted complement of a
/// negative one.
proof fn lemma_signed_shift_i64(x: i64, k: u64)
    by (bit_vector)
    ensures
        k < 64 && x >= 0 ==> x >> k >= 0 && (x >> k) as u64 == (x as u64) >> k,
        k < 64 && x < 0 ==> x >> k == !((!x) >> k) && !x >= 0,
{
}

/// Dividing the complement `-z - 1` of a nonnegative number rounds down to
/// the complement of the quotient of `z`.
proof fn lemma_floor_of_complement(z: int, d: int)
    requires
        z >= 0,
        d > 0,
    ensures
        (-z - 1) / d == -(z / d) - 1,
{
    vstd::arithmetic::div_mod::lemma_fundamental_div_mod(z, d);
    vstd::arithmetic::div_mod::lemma_mod_bound(z, d);
    let q = z / d;
    let r = z % d;
    assert(-z - 1 == (-q - 1) * d + (d - r - 1)) by (nonlinear_arith)
        requires
            z == d * q + r,
    ;
    vstd::arithmetic::div_mod::lemma_fundamental_div_mod_converse(-z - 1, d, -q - 1, d - r - 1);
}

/// `a >> b`, for a shift amount at least zero and below the width, divides
/// `a` by `2^b` rounding down: a logical shift on unsigned types, an
/// arithmetic one on signed types (of up to 64 bits).
pub proof fn law_right_shift_divides(a: Value, b: Value)
    requires
        integer_type(a) is Some,
        integer_type(a) == integer_type(b),
        !(a is I128),
        0 <= integer_value(b) < type_bits(integer_type(a)->0),
    ensures
        spec_scalar_binary(BinaryOp::Shr, a, b) matches Ok(r) && integer_type(r) == integer_type(a)
            && integer_value(r) == integer_value(a) / (pow2(integer_value(b) as nat) as int),
{
    law_shift(a, b);
    match a {
        Value::I8(x) => {
            if let Value::I8(y) = b {
                let k = y as u8;
                assert(x >> y == x >> k);
                lemma_signed_shift_i8(x, k);
                let d = pow2(k as nat) as int;
                vstd::arithmetic::power2::lemma_pow2_pos(k as nat);
                if x >= 0 {
                    vstd::bits::lemma_u8_shr_is_div(x as u8, k);
                } else {
                    let z = !x;
                    lemma_complement(x, 0, 0, 0, 0, 0, 0, 0, 0, 0, 0);
                    lemma_complement(z >> k, 0, 0, 0, 0, 0, 0, 0, 0, 0, 0);
                    lemma_signed_shift_i8(z, k);
                    vstd::bits::lemma_u8_shr_is_div(z as u8, k);
                    lemma_floor_of_complement(z as int, d);
                }
            }
        },
        Value::I16(x) => {
            if let Value::I16(y) = b {
                let k = y as u16;
                assert(x >> y == x >> k);
                lemma_signed_shift_i16(x, k);
                let d = pow2(k as nat) as int;
                vstd::arithmetic::power2::lemma_pow2_pos(k as nat);
                if x >= 0 {
                    vstd::bits::lemma_u16_shr_is_div(x as u16, k);
                } else {
                    let z = !x;
                    lemma_complement(0, x, 0, 0, 0, 0, 0, 0, 0, 0, 0);
                    lemma_complement(0, z >> k, 0, 0, 0, 0, 0, 0, 0, 0, 0);
                    lemma_signed_shift_i16(z, k);
                    vstd::bits::lemma_u16_shr_is_div(z as u16, k);
                    lemma_floor_of_complement(z as int, d);
                }
            }
        },
        Value::I32(x) => {
            if let Value::I32(y) = b {
                let k = y as u32;
                assert(x >> y == x >> k);
                lemma_signed_shift_i32(x, k);
                let d = pow2(k as nat) as int;
                vstd::arithmetic::power2::lemma_pow2_pos(k as nat);
                if x >= 0 {
                    vstd::bits::lemma_u32_shr_is_div(x as u32, k);
                } else {
                    let z = !x;
                    lemma_complement(0, 0, x, 0, 0, 0, 0, 0, 0, 0, 0);
                    lemma_complement(0, 0, z >> k, 0, 0, 0, 0, 0, 0, 0, 0);
                    lemma_signed_shift_i32(z, k);
                    vstd::bits::lemma_u32_shr_is_div(z as u32, k);
                    lemma_floor_of_complement(z as int, d);
                }
            }
        },
        Value::I64(x) => {
            if let Value::I64(y) = b {
                let k = y as u64;
                assert(x >> y == x >> k);
                lemma_signed_shift_i64(x, k);
                let d = pow2(k as nat) as int;
                vstd::arithmetic::power2::lemma_pow2_pos(k as nat);
                if x >= 0 {
                    vstd::bits::lemma_u64_shr_is_div(x as u64, k);
                } else {
                    let z = !x;
                    lemma_complement(0, 0, 0, x, 0, 0, 0, 0, 0, 0, 0);
                    lemma_complement(0, 0, 0, z >> k, 0, 0, 0, 0, 0, 0, 0);
                    lemma_signed_shift_i64(z, k);
                    vstd::bits::lemma_u64_shr_is_div(z as u64, k);
                    lemma_floor_of_complement(z as int, d);
                }
            }
        },
        _ => {},
    }
}

/// The right-shift instruction that the lowering picks computes, on the
/// operand's bit pattern, the pattern of what `a >> b` gives, for every shift
/// amount below the width: the logical shift for unsigned integers and the
/// arithmetic one for signed integers (of up to 64 bits).
pub proof fn law_right_shift_instruction(a: Value, b: Value)
    requires
        integer_type(a) is Some,
        integer_type(a) == integer_type(b),
        !(a is I128),
        0 <= integer_value(b) < type_bits(integer_type(a)->0),
    ensures
        spec_scalar_binary(BinaryOp::Shr, a, b) matches Ok(v) && right_shift_result(
            spec_int_instruction(BinaryOp::Shr, unsigned_operand(scalar_type(a)@)),
            pattern(a),
            integer_value(b) as nat,
            pattern_modulus(a),
        ) == Some(pattern(v)),
{
    let m = pattern_modulus(a);
    law_right_shift_divides(a, b);
    lemma_value_in_range(a);
    let v = spec_scalar_binary(BinaryOp::Shr, a, b)->Ok_0;
    lemma_value_in_range(v);
    if type_signed(integer_type(a)->0) {
        lemma_signed_pattern(integer_value(a), m);
    } else {
        lemma_unsigned_pattern(integer_value(a), m);
        lemma_unsigned_pattern(integer_value(v), m);
    }
}

} // verus!
