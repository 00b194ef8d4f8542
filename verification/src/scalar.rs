//! The arithmetic of scalar values: what each operator computes on each
//! type, as the generated machine code computes it. Integer arithmetic wraps
//! around; division by zero, signed division overflow and shifts by at least
//! the width are faults, since the machine code has no defined result then.
//! Floating-point values are not computed on.
use vstd::prelude::*;
use crate::typing::{BinaryOp, UnaryOp};
use crate::types::TypeInfo;
use crate::value::Value;

verus! {

/// Why a closure could not be evaluated.
#[derive(Debug, PartialEq, Eq)]
pub enum EvalError {
    /// An operand does not have a type that the operation accepts.
    TypeMismatch,
    /// Division or remainder by zero, or signed division overflow.
    DivisionFault,
    /// A shift by a negative amount or by at least the width of the type.
    ShiftOutOfRange,
    /// Floating-point arithmetic, intrinsics and external calls.
    Unsupported,
    ArgumentOutOfBounds(usize),
    CaptureOutOfBounds(usize),
    IndexOutOfBounds,
    FieldNotFound(String),
    /// A `let` or `for` that does not introduce the next local, or an
    /// assignment to a local that does not exist.
    InvalidLocal(usize),
    /// The body of a loop yields a value.
    UnexpectedResult,
    /// The number of arguments or captured values differs from the closure's.
    ArityMismatch,
    /// The evaluation took more loop iterations than it was allowed.
    OutOfFuel,
}

/// `x op y` on `i8` operands.
pub open spec fn spec_i8_binary(op: BinaryOp, x: i8, y: i8) -> Result<Value, EvalError> {
    match op {
        BinaryOp::Add => Ok(Value::I8(x.wrapping_add(y))),
        BinaryOp::Sub => Ok(Value::I8(x.wrapping_sub(y))),
        BinaryOp::Mul => Ok(Value::I8(x.wrapping_mul(y))),
        BinaryOp::Div => match x.checked_div(y) {
            Some(r) => Ok(Value::I8(r)),
            None => Err(EvalError::DivisionFault),
        },
        BinaryOp::Rem => match x.checked_rem(y) {
            Some(r) => Ok(Value::I8(r)),
            None => Err(EvalError::DivisionFault),
        },
        BinaryOp::Eq => Ok(Value::Bool(x == y)),
        BinaryOp::Ne => Ok(Value::Bool(x != y)),
        BinaryOp::Lt => Ok(Value::Bool(x < y)),
        BinaryOp::Le => Ok(Value::Bool(x <= y)),
        BinaryOp::Gt => Ok(Value::Bool(x > y)),
        BinaryOp::Ge => Ok(Value::Bool(x >= y)),
        BinaryOp::And | BinaryOp::Or => Err(EvalError::TypeMismatch),
        BinaryOp::BitAnd => Ok(Value::I8(x & y)),
        BinaryOp::BitOr => Ok(Value::I8(x | y)),
        BinaryOp::BitXor => Ok(Value::I8(x ^ y)),
        BinaryOp::Shl => if 0 <= y && y < 8 {
            Ok(Value::I8(x << y))
        } else {
            Err(EvalError::ShiftOutOfRange)
        },
        BinaryOp::Shr => if 0 <= y && y < 8 {
            Ok(Value::I8(x >> y))
        } else {
            Err(EvalError::ShiftOutOfRange)
        },
    }
}

fn i8_binary(op: BinaryOp, x: i8, y: i8) -> (r: Result<Value, EvalError>)
    ensures
        r == spec_i8_binary(op, x, y),
{
    match op {
        BinaryOp::Add => Ok(Value::I8(x.wrapping_add(y))),
        BinaryOp::Sub => Ok(Value::I8(x.wrapping_sub(y))),
        BinaryOp::Mul => Ok(Value::I8(x.wrapping_mul(y))),
        BinaryOp::Div => match x.checked_div(y) {
            Some(r) => Ok(Value::I8(r)),
            None => Err(EvalError::DivisionFault),
        },
        BinaryOp::Rem => match x.checked_rem(y) {
            Some(r) => Ok(Value::I8(r)),
            None => Err(EvalError::DivisionFault),
        },
        BinaryOp::Eq => Ok(Value::Bool(x == y)),
        BinaryOp::Ne => Ok(Value::Bool(x != y)),
        BinaryOp::Lt => Ok(Value::Bool(x < y)),
        BinaryOp::Le => Ok(Value::Bool(x <= y)),
        BinaryOp::Gt => Ok(Value::Bool(x > y)),
        BinaryOp::Ge => Ok(Value::Bool(x >= y)),
        BinaryOp::And | BinaryOp::Or => Err(EvalError::TypeMismatch),
        BinaryOp::BitAnd => Ok(Value::I8(x & y)),
        BinaryOp::BitOr => Ok(Value::I8(x | y)),
        BinaryOp::BitXor => Ok(Value::I8(x ^ y)),
        BinaryOp::Shl => if 0 <= y && y < 8 {
            Ok(Value::I8(x << y))
        } else {
            Err(EvalError::ShiftOutOfRange)
        },
        BinaryOp::Shr => if 0 <= y && y < 8 {
            Ok(Value::I8(x >> y))
        } else {
            Err(EvalError::ShiftOutOfRange)
        },
    }
}

/// `x op y` on `i16` operands.
pub open spec fn spec_i16_binary(op: BinaryOp, x: i16, y: i16) -> Result<Value, EvalError> {
    match op {
        BinaryOp::Add => Ok(Value::I16(x.wrapping_add(y))),
        BinaryOp::Sub => Ok(Value::I16(x.wrapping_sub(y))),
        BinaryOp::Mul => Ok(Value::I16(x.wrapping_mul(y))),
        BinaryOp::Div => match x.checked_div(y) {
            Some(r) => Ok(Value::I16(r)),
            None => Err(EvalError::DivisionFault),
        },
        BinaryOp::Rem => match x.checked_rem(y) {
            Some(r) => Ok(Value::I16(r)),
            None => Err(EvalError::DivisionFault),
        },
        BinaryOp::Eq => Ok(Value::Bool(x == y)),
        BinaryOp::Ne => Ok(Value::Bool(x != y)),
        BinaryOp::Lt => Ok(Value::Bool(x < y)),
        BinaryOp::Le => Ok(Value::Bool(x <= y)),
        BinaryOp::Gt => Ok(Value::Bool(x > y)),
        BinaryOp::Ge => Ok(Value::Bool(x >= y)),
        BinaryOp::And | BinaryOp::Or => Err(EvalError::TypeMismatch),
        BinaryOp::BitAnd => Ok(Value::I16(x & y)),
        BinaryOp::BitOr => Ok(Value::I16(x | y)),
        BinaryOp::BitXor => Ok(Value::I16(x ^ y)),
        BinaryOp::Shl => if 0 <= y && y < 16 {
            Ok(Value::I16(x << y))
        } else {
            Err(EvalError::ShiftOutOfRange)
        },
        BinaryOp::Shr => if 0 <= y && y < 16 {
            Ok(Value::I16(x >> y))
        } else {
            Err(EvalError::ShiftOutOfRange)
        },
    }
}

fn i16_binary(op: BinaryOp, x: i16, y: i16) -> (r: Result<Value, EvalError>)
    ensures
        r == spec_i16_binary(op, x, y),
{
    match op {
        BinaryOp::Add => Ok(Value::I16(x.wrapping_add(y))),
        BinaryOp::Sub => Ok(Value::I16(x.wrapping_sub(y))),
        BinaryOp::Mul => Ok(Value::I16(x.wrapping_mul(y))),
        BinaryOp::Div => match x.checked_div(y) {
            Some(r) => Ok(Value::I16(r)),
            None => Err(EvalError::DivisionFault),
        },
        BinaryOp::Rem => match x.checked_rem(y) {
            Some(r) => Ok(Value::I16(r)),
            None => Err(EvalError::DivisionFault),
        },
        BinaryOp::Eq => Ok(Value::Bool(x == y)),
        BinaryOp::Ne => Ok(Value::Bool(x != y)),
        BinaryOp::Lt => Ok(Value::Bool(x < y)),
        BinaryOp::Le => Ok(Value::Bool(x <= y)),
        BinaryOp::Gt => Ok(Value::Bool(x > y)),
        BinaryOp::Ge => Ok(Value::Bool(x >= y)),
        BinaryOp::And | BinaryOp::Or => Err(EvalError::TypeMismatch),
        BinaryOp::BitAnd => Ok(Value::I16(x & y)),
        BinaryOp::BitOr => Ok(Value::I16(x | y)),
        BinaryOp::BitXor => Ok(Value::I16(x ^ y)),
        BinaryOp::Shl => if 0 <= y && y < 16 {
            Ok(Value::I16(x << y))
        } else {
            Err(EvalError::ShiftOutOfRange)
        },
        BinaryOp::Shr => if 0 <= y && y < 16 {
            Ok(Value::I16(x >> y))
        } else {
            Err(EvalError::ShiftOutOfRange)
        },
    }
}

/// `x op y` on `i32` operands.
pub open spec fn spec_i32_binary(op: BinaryOp, x: i32, y: i32) -> Result<Value, EvalError> {
    match op {
        BinaryOp::Add => Ok(Value::I32(x.wrapping_add(y))),
        BinaryOp::Sub => Ok(Value::I32(x.wrapping_sub(y))),
        BinaryOp::Mul => Ok(Value::I32(x.wrapping_mul(y))),
        BinaryOp::Div => match x.checked_div(y) {
            Some(r) => Ok(Value::I32(r)),
            None => Err(EvalError::DivisionFault),
        },
        BinaryOp::Rem => match x.checked_rem(y) {
            Some(r) => Ok(Value::I32(r)),
            None => Err(EvalError::DivisionFault),
        },
        BinaryOp::Eq => Ok(Value::Bool(x == y)),
        BinaryOp::Ne => Ok(Value::Bool(x != y)),
        BinaryOp::Lt => Ok(Value::Bool(x < y)),
        BinaryOp::Le => Ok(Value::Bool(x <= y)),
        BinaryOp::Gt => Ok(Value::Bool(x > y)),
        BinaryOp::Ge => Ok(Value::Bool(x >= y)),
        BinaryOp::And | BinaryOp::Or => Err(EvalError::TypeMismatch),
        BinaryOp::BitAnd => Ok(Value::I32(x & y)),
        BinaryOp::BitOr => Ok(Value::I32(x | y)),
        BinaryOp::BitXor => Ok(Value::I32(x ^ y)),
        BinaryOp::Shl => if 0 <= y && y < 32 {
            Ok(Value::I32(x << y))
        } else {
            Err(EvalError::ShiftOutOfRange)
        },
        BinaryOp::Shr => if 0 <= y && y < 32 {
            Ok(Value::I32(x >> y))
        } else {
            Err(EvalError::ShiftOutOfRange)
        },
    }
}

fn i32_binary(op: BinaryOp, x: i32, y: i32) -> (r: Result<Value, EvalError>)
    ensures
        r == spec_i32_binary(op, x, y),
{
    match op {
        BinaryOp::Add => Ok(Value::I32(x.wrapping_add(y))),
        BinaryOp::Sub => Ok(Value::I32(x.wrapping_sub(y))),
        BinaryOp::Mul => Ok(Value::I32(x.wrapping_mul(y))),
        BinaryOp::Div => match x.checked_div(y) {
            Some(r) => Ok(Value::I32(r)),
            None => Err(EvalError::DivisionFault),
        },
        BinaryOp::Rem => match x.checked_rem(y) {
            Some(r) => Ok(Value::I32(r)),
            None => Err(EvalError::DivisionFault),
        },
        BinaryOp::Eq => Ok(Value::Bool(x == y)),
        BinaryOp::Ne => Ok(Value::Bool(x != y)),
        BinaryOp::Lt => Ok(Value::Bool(x < y)),
        BinaryOp::Le => Ok(Value::Bool(x <= y)),
        BinaryOp::Gt => Ok(Value::Bool(x > y)),
        BinaryOp::Ge => Ok(Value::Bool(x >= y)),
        BinaryOp::And | BinaryOp::Or => Err(EvalError::TypeMismatch),
        BinaryOp::BitAnd => Ok(Value::I32(x & y)),
        BinaryOp::BitOr => Ok(Value::I32(x | y)),
        BinaryOp::BitXor => Ok(Value::I32(x ^ y)),
        BinaryOp::Shl => if 0 <= y && y < 32 {
            Ok(Value::I32(x << y))
        } else {
            Err(EvalError::ShiftOutOfRange)
        },
        BinaryOp::Shr => if 0 <= y && y < 32 {
            Ok(Value::I32(x >> y))
        } else {
            Err(EvalError::ShiftOutOfRange)
        },
    }
}

/// `x op y` on `i64` operands.
pub open spec fn spec_i64_binary(op: BinaryOp, x: i64, y: i64) -> Result<Value, EvalError> {
    match op {
        BinaryOp::Add => Ok(Value::I64(x.wrapping_add(y))),
        BinaryOp::Sub => Ok(Value::I64(x.wrapping_sub(y))),
        BinaryOp::Mul => Ok(Value::I64(x.wrapping_mul(y))),
        BinaryOp::Div => match x.checked_div(y) {
            Some(r) => Ok(Value::I64(r)),
            None => Err(EvalError::DivisionFault),
        },
        BinaryOp::Rem => match x.checked_rem(y) {
            Some(r) => Ok(Value::I64(r)),
            None => Err(EvalError::DivisionFault),
        },
        BinaryOp::Eq => Ok(Value::Bool(x == y)),
        BinaryOp::Ne => Ok(Value::Bool(x != y)),
        BinaryOp::Lt => Ok(Value::Bool(x < y)),
        BinaryOp::Le => Ok(Value::Bool(x <= y)),
        BinaryOp::Gt => Ok(Value::Bool(x > y)),
        BinaryOp::Ge => Ok(Value::Bool(x >= y)),
        BinaryOp::And | BinaryOp::Or => Err(EvalError::TypeMismatch),
        BinaryOp::BitAnd => Ok(Value::I64(x & y)),
        BinaryOp::BitOr => Ok(Value::I64(x | y)),
        BinaryOp::BitXor => Ok(Value::I64(x ^ y)),
        BinaryOp::Shl => if 0 <= y && y < 64 {
            Ok(Value::I64(x << y))
        } else {
            Err(EvalError::ShiftOutOfRange)
        },
        BinaryOp::Shr => if 0 <= y && y < 64 {
            Ok(Value::I64(x >> y))
        } else {
            Err(EvalError::ShiftOutOfRange)
        },
    }
}

fn i64_binary(op: BinaryOp, x: i64, y: i64) -> (r: Result<Value, EvalError>)
    ensures
        r == spec_i64_binary(op, x, y),
{
    match op {
        BinaryOp::Add => Ok(Value::I64(x.wrapping_add(y))),
        BinaryOp::Sub => Ok(Value::I64(x.wrapping_sub(y))),
        BinaryOp::Mul => Ok(Value::I64(x.wrapping_mul(y))),
        BinaryOp::Div => match x.checked_div(y) {
            Some(r) => Ok(Value::I64(r)),
            None => Err(EvalError::DivisionFault),
        },
        BinaryOp::Rem => match x.checked_rem(y) {
            Some(r) => Ok(Value::I64(r)),
            None => Err(EvalError::DivisionFault),
        },
        BinaryOp::Eq => Ok(Value::Bool(x == y)),
        BinaryOp::Ne => Ok(Value::Bool(x != y)),
        BinaryOp::Lt => Ok(Value::Bool(x < y)),
        BinaryOp::Le => Ok(Value::Bool(x <= y)),
        BinaryOp::Gt => Ok(Value::Bool(x > y)),
        BinaryOp::Ge => Ok(Value::Bool(x >= y)),
        BinaryOp::And | BinaryOp::Or => Err(EvalError::TypeMismatch),
        BinaryOp::BitAnd => Ok(Value::I64(x & y)),
        BinaryOp::BitOr => Ok(Value::I64(x | y)),
        BinaryOp::BitXor => Ok(Value::I64(x ^ y)),
        BinaryOp::Shl => if 0 <= y && y < 64 {
            Ok(Value::I64(x << y))
        } else {
            Err(EvalError::ShiftOutOfRange)
        },
        BinaryOp::Shr => if 0 <= y && y < 64 {
            Ok(Value::I64(x >> y))
        } else {
            Err(EvalError::ShiftOutOfRange)
        },
    }
}

/// `x op y` on `i128` operands.
pub open spec fn spec_i128_binary(op: BinaryOp, x: i128, y: i128) -> Result<Value, EvalError> {
    match op {
        BinaryOp::Add => Ok(Value::I128(x.wrapping_add(y))),
        BinaryOp::Sub => Ok(Value::I128(x.wrapping_sub(y))),
        BinaryOp::Mul => Ok(Value::I128(x.wrapping_mul(y))),
        BinaryOp::Div => match x.checked_div(y) {
            Some(r) => Ok(Value::I128(r)),
            None => Err(EvalError::DivisionFault),
        },
        BinaryOp::Rem => match x.checked_rem(y) {
            Some(r) => Ok(Value::I128(r)),
            None => Err(EvalError::DivisionFault),
        },
        BinaryOp::Eq => Ok(Value::Bool(x == y)),
        BinaryOp::Ne => Ok(Value::Bool(x != y)),
        BinaryOp::Lt => Ok(Value::Bool(x < y)),
        BinaryOp::Le => Ok(Value::Bool(x <= y)),
        BinaryOp::Gt => Ok(Value::Bool(x > y)),
        BinaryOp::Ge => Ok(Value::Bool(x >= y)),
        BinaryOp::And | BinaryOp::Or => Err(EvalError::TypeMismatch),
        BinaryOp::BitAnd => Ok(Value::I128(x & y)),
        BinaryOp::BitOr => Ok(Value::I128(x | y)),
        BinaryOp::BitXor => Ok(Value::I128(x ^ y)),
        BinaryOp::Shl => if 0 <= y && y < 128 {
            Ok(Value::I128(x << y))
        } else {
            Err(EvalError::ShiftOutOfRange)
        },
        BinaryOp::Shr => if 0 <= y && y < 128 {
            Ok(Value::I128(x >> y))
        } else {
            Err(EvalError::ShiftOutOfRange)
        },
    }
}

fn i128_binary(op: BinaryOp, x: i128, y: i128) -> (r: Result<Value, EvalError>)
    ensures
        r == spec_i128_binary(op, x, y),
{
    match op {
        BinaryOp::Add => Ok(Value::I128(x.wrapping_add(y))),
        BinaryOp::Sub => Ok(Value::I128(x.wrapping_sub(y))),
        BinaryOp::Mul => Ok(Value::I128(x.wrapping_mul(y))),
        BinaryOp::Div => match x.checked_div(y) {
            Some(r) => Ok(Value::I128(r)),
            None => Err(EvalError::DivisionFault),
        },
        BinaryOp::Rem => match x.checked_rem(y) {
            Some(r) => Ok(Value::I128(r)),
            None => Err(EvalError::DivisionFault),
        },
        BinaryOp::Eq => Ok(Value::Bool(x == y)),
        BinaryOp::Ne => Ok(Value::Bool(x != y)),
        BinaryOp::Lt => Ok(Value::Bool(x < y)),
        BinaryOp::Le => Ok(Value::Bool(x <= y)),
        BinaryOp::Gt => Ok(Value::Bool(x > y)),
        BinaryOp::Ge => Ok(Value::Bool(x >= y)),
        BinaryOp::And | BinaryOp::Or => Err(EvalError::TypeMismatch),
        BinaryOp::BitAnd => Ok(Value::I128(x & y)),
        BinaryOp::BitOr => Ok(Value::I128(x | y)),
        BinaryOp::BitXor => Ok(Value::I128(x ^ y)),
        BinaryOp::Shl => if 0 <= y && y < 128 {
            Ok(Value::I128(x << y))
        } else {
            Err(EvalError::ShiftOutOfRange)
        },
        BinaryOp::Shr => if 0 <= y && y < 128 {
            Ok(Value::I128(x >> y))
        } else {
            Err(EvalError::ShiftOutOfRange)
        },
    }
}

/// `x op y` on `u8` operands.
pub open spec fn spec_u8_binary(op: BinaryOp, x: u8, y: u8) -> Result<Value, EvalError> {
    match op {
        BinaryOp::Add => Ok(Value::U8(x.wrapping_add(y))),
        BinaryOp::Sub => Ok(Value::U8(x.wrapping_sub(y))),
        BinaryOp::Mul => Ok(Value::U8(x.wrapping_mul(y))),
        BinaryOp::Div => match x.checked_div(y) {
            Some(r) => Ok(Value::U8(r)),
            None => Err(EvalError::DivisionFault),
        },
        BinaryOp::Rem => match x.checked_rem(y) {
            Some(r) => Ok(Value::U8(r)),
            None => Err(EvalError::DivisionFault),
        },
        BinaryOp::Eq => Ok(Value::Bool(x == y)),
        BinaryOp::Ne => Ok(Value::Bool(x != y)),
        BinaryOp::Lt => Ok(Value::Bool(x < y)),
        BinaryOp::Le => Ok(Value::Bool(x <= y)),
        BinaryOp::Gt => Ok(Value::Bool(x > y)),
        BinaryOp::Ge => Ok(Value::Bool(x >= y)),
        BinaryOp::And | BinaryOp::Or => Err(EvalError::TypeMismatch),
        BinaryOp::BitAnd => Ok(Value::U8(x & y)),
        BinaryOp::BitOr => Ok(Value::U8(x | y)),
        BinaryOp::BitXor => Ok(Value::U8(x ^ y)),
        BinaryOp::Shl => if y < 8 {
            Ok(Value::U8(x << y))
        } else {
            Err(EvalError::ShiftOutOfRange)
        },
        BinaryOp::Shr => if y < 8 {
            Ok(Value::U8(x >> y))
        } else {
            Err(EvalError::ShiftOutOfRange)
        },
    }
}

fn u8_binary(op: BinaryOp, x: u8, y: u8) -> (r: Result<Value, EvalError>)
    ensures
        r == spec_u8_binary(op, x, y),
{
    match op {
        BinaryOp::Add => Ok(Value::U8(x.wrapping_add(y))),
        BinaryOp::Sub => Ok(Value::U8(x.wrapping_sub(y))),
        BinaryOp::Mul => Ok(Value::U8(x.wrapping_mul(y))),
        BinaryOp::Div => match x.checked_div(y) {
            Some(r) => Ok(Value::U8(r)),
            None => Err(EvalError::DivisionFault),
        },
        BinaryOp::Rem => match x.checked_rem(y) {
            Some(r) => Ok(Value::U8(r)),
            None => Err(EvalError::DivisionFault),
        },
        BinaryOp::Eq => Ok(Value::Bool(x == y)),
        BinaryOp::Ne => Ok(Value::Bool(x != y)),
        BinaryOp::Lt => Ok(Value::Bool(x < y)),
        BinaryOp::Le => Ok(Value::Bool(x <= y)),
        BinaryOp::Gt => Ok(Value::Bool(x > y)),
        BinaryOp::Ge => Ok(Value::Bool(x >= y)),
        BinaryOp::And | BinaryOp::Or => Err(EvalError::TypeMismatch),
        BinaryOp::BitAnd => Ok(Value::U8(x & y)),
        BinaryOp::BitOr => Ok(Value::U8(x | y)),
        BinaryOp::BitXor => Ok(Value::U8(x ^ y)),
        BinaryOp::Shl => if y < 8 {
            Ok(Value::U8(x << y))
        } else {
            Err(EvalError::ShiftOutOfRange)
        },
        BinaryOp::Shr => if y < 8 {
            Ok(Value::U8(x >> y))
        } else {
            Err(EvalError::ShiftOutOfRange)
        },
    }
}

/// `x op y` on `u16` operands.
pub open spec fn spec_u16_binary(op: BinaryOp, x: u16, y: u16) -> Result<Value, EvalError> {
    match op {
        BinaryOp::Add => Ok(Value::U16(x.wrapping_add(y))),
        BinaryOp::Sub => Ok(Value::U16(x.wrapping_sub(y))),
        BinaryOp::Mul => Ok(Value::U16(x.wrapping_mul(y))),
        BinaryOp::Div => match x.checked_div(y) {
            Some(r) => Ok(Value::U16(r)),
            None => Err(EvalError::DivisionFault),
        },
        BinaryOp::Rem => match x.checked_rem(y) {
            Some(r) => Ok(Value::U16(r)),
            None => Err(EvalError::DivisionFault),
        },
        BinaryOp::Eq => Ok(Value::Bool(x == y)),
        BinaryOp::Ne => Ok(Value::Bool(x != y)),
        BinaryOp::Lt => Ok(Value::Bool(x < y)),
        BinaryOp::Le => Ok(Value::Bool(x <= y)),
        BinaryOp::Gt => Ok(Value::Bool(x > y)),
        BinaryOp::Ge => Ok(Value::Bool(x >= y)),
        BinaryOp::And | BinaryOp::Or => Err(EvalError::TypeMismatch),
        BinaryOp::BitAnd => Ok(Value::U16(x & y)),
        BinaryOp::BitOr => Ok(Value::U16(x | y)),
        BinaryOp::BitXor => Ok(Value::U16(x ^ y)),
        BinaryOp::Shl => if y < 16 {
            Ok(Value::U16(x << y))
        } else {
            Err(EvalError::ShiftOutOfRange)
        },
        BinaryOp::Shr => if y < 16 {
            Ok(Value::U16(x >> y))
        } else {
            Err(EvalError::ShiftOutOfRange)
        },
    }
}

fn u16_binary(op: BinaryOp, x: u16, y: u16) -> (r: Result<Value, EvalError>)
    ensures
        r == spec_u16_binary(op, x, y),
{
    match op {
        BinaryOp::Add => Ok(Value::U16(x.wrapping_add(y))),
        BinaryOp::Sub => Ok(Value::U16(x.wrapping_sub(y))),
        BinaryOp::Mul => Ok(Value::U16(x.wrapping_mul(y))),
        BinaryOp::Div => match x.checked_div(y) {
            Some(r) => Ok(Value::U16(r)),
            None => Err(EvalError::DivisionFault),
        },
        BinaryOp::Rem => match x.checked_rem(y) {
            Some(r) => Ok(Value::U16(r)),
            None => Err(EvalError::DivisionFault),
        },
        BinaryOp::Eq => Ok(Value::Bool(x == y)),
        BinaryOp::Ne => Ok(Value::Bool(x != y)),
        BinaryOp::Lt => Ok(Value::Bool(x < y)),
        BinaryOp::Le => Ok(Value::Bool(x <= y)),
        BinaryOp::Gt => Ok(Value::Bool(x > y)),
        BinaryOp::Ge => Ok(Value::Bool(x >= y)),
        BinaryOp::And | BinaryOp::Or => Err(EvalError::TypeMismatch),
        BinaryOp::BitAnd => Ok(Value::U16(x & y)),
        BinaryOp::BitOr => Ok(Value::U16(x | y)),
        BinaryOp::BitXor => Ok(Value::U16(x ^ y)),
        BinaryOp::Shl => if y < 16 {
            Ok(Value::U16(x << y))
        } else {
            Err(EvalError::ShiftOutOfRange)
        },
        BinaryOp::Shr => if y < 16 {
            Ok(Value::U16(x >> y))
        } else {
            Err(EvalError::ShiftOutOfRange)
        },
    }
}

/// `x op y` on `u32` operands.
pub open spec fn spec_u32_binary(op: BinaryOp, x: u32, y: u32) -> Result<Value, EvalError> {
    match op {
        BinaryOp::Add => Ok(Value::U32(x.wrapping_add(y))),
        BinaryOp::Sub => Ok(Value::U32(x.wrapping_sub(y))),
        BinaryOp::Mul => Ok(Value::U32(x.wrapping_mul(y))),
        BinaryOp::Div => match x.checked_div(y) {
            Some(r) => Ok(Value::U32(r)),
            None => Err(EvalError::DivisionFault),
        },
        BinaryOp::Rem => match x.checked_rem(y) {
            Some(r) => Ok(Value::U32(r)),
            None => Err(EvalError::DivisionFault),
        },
        BinaryOp::Eq => Ok(Value::Bool(x == y)),
        BinaryOp::Ne => Ok(Value::Bool(x != y)),
        BinaryOp::Lt => Ok(Value::Bool(x < y)),
        BinaryOp::Le => Ok(Value::Bool(x <= y)),
        BinaryOp::Gt => Ok(Value::Bool(x > y)),
        BinaryOp::Ge => Ok(Value::Bool(x >= y)),
        BinaryOp::And | BinaryOp::Or => Err(EvalError::TypeMismatch),
        BinaryOp::BitAnd => Ok(Value::U32(x & y)),
        BinaryOp::BitOr => Ok(Value::U32(x | y)),
        BinaryOp::BitXor => Ok(Value::U32(x ^ y)),
        BinaryOp::Shl => if y < 32 {
            Ok(Value::U32(x << y))
        } else {
            Err(EvalError::ShiftOutOfRange)
        },
        BinaryOp::Shr => if y < 32 {
            Ok(Value::U32(x >> y))
        } else {
            Err(EvalError::ShiftOutOfRange)
        },
    }
}

fn u32_binary(op: BinaryOp, x: u32, y: u32) -> (r: Result<Value, EvalError>)
    ensures
        r == spec_u32_binary(op, x, y),
{
    match op {
        BinaryOp::Add => Ok(Value::U32(x.wrapping_add(y))),
        BinaryOp::Sub => Ok(Value::U32(x.wrapping_sub(y))),
        BinaryOp::Mul => Ok(Value::U32(x.wrapping_mul(y))),
        BinaryOp::Div => match x.checked_div(y) {
            Some(r) => Ok(Value::U32(r)),
            None => Err(EvalError::DivisionFault),
        },
        BinaryOp::Rem => match x.checked_rem(y) {
            Some(r) => Ok(Value::U32(r)),
            None => Err(EvalError::DivisionFault),
        },
        BinaryOp::Eq => Ok(Value::Bool(x == y)),
        BinaryOp::Ne => Ok(Value::Bool(x != y)),
        BinaryOp::Lt => Ok(Value::Bool(x < y)),
        BinaryOp::Le => Ok(Value::Bool(x <= y)),
        BinaryOp::Gt => Ok(Value::Bool(x > y)),
        BinaryOp::Ge => Ok(Value::Bool(x >= y)),
        BinaryOp::And | BinaryOp::Or => Err(EvalError::TypeMismatch),
        BinaryOp::BitAnd => Ok(Value::U32(x & y)),
        BinaryOp::BitOr => Ok(Value::U32(x | y)),
        BinaryOp::BitXor => Ok(Value::U32(x ^ y)),
        BinaryOp::Shl => if y < 32 {
            Ok(Value::U32(x << y))
        } else {
            Err(EvalError::ShiftOutOfRange)
        },
        BinaryOp::Shr => if y < 32 {
            Ok(Value::U32(x >> y))
        } else {
            Err(EvalError::ShiftOutOfRange)
        },
    }
}

/// `x op y` on `u64` operands.
pub open spec fn spec_u64_binary(op: BinaryOp, x: u64, y: u64) -> Result<Value, EvalError> {
    match op {
        BinaryOp::Add => Ok(Value::U64(x.wrapping_add(y))),
        BinaryOp::Sub => Ok(Value::U64(x.wrapping_sub(y))),
        BinaryOp::Mul => Ok(Value::U64(x.wrapping_mul(y))),
        BinaryOp::Div => match x.checked_div(y) {
            Some(r) => Ok(Value::U64(r)),
            None => Err(EvalError::DivisionFault),
        },
        BinaryOp::Rem => match x.checked_rem(y) {
            Some(r) => Ok(Value::U64(r)),
            None => Err(EvalError::DivisionFault),
        },
        BinaryOp::Eq => Ok(Value::Bool(x == y)),
        BinaryOp::Ne => Ok(Value::Bool(x != y)),
        BinaryOp::Lt => Ok(Value::Bool(x < y)),
        BinaryOp::Le => Ok(Value::Bool(x <= y)),
        BinaryOp::Gt => Ok(Value::Bool(x > y)),
        BinaryOp::Ge => Ok(Value::Bool(x >= y)),
        BinaryOp::And | BinaryOp::Or => Err(EvalError::TypeMismatch),
        BinaryOp::BitAnd => Ok(Value::U64(x & y)),
        BinaryOp::BitOr => Ok(Value::U64(x | y)),
        BinaryOp::BitXor => Ok(Value::U64(x ^ y)),
        BinaryOp::Shl => if y < 64 {
            Ok(Value::U64(x << y))
        } else {
            Err(EvalError::ShiftOutOfRange)
        },
        BinaryOp::Shr => if y < 64 {
            Ok(Value::U64(x >> y))
        } else {
            Err(EvalError::ShiftOutOfRange)
        },
    }
}

fn u64_binary(op: BinaryOp, x: u64, y: u64) -> (r: Result<Value, EvalError>)
    ensures
        r == spec_u64_binary(op, x, y),
{
    match op {
        BinaryOp::Add => Ok(Value::U64(x.wrapping_add(y))),
        BinaryOp::Sub => Ok(Value::U64(x.wrapping_sub(y))),
        BinaryOp::Mul => Ok(Value::U64(x.wrapping_mul(y))),
        BinaryOp::Div => match x.checked_div(y) {
            Some(r) => Ok(Value::U64(r)),
            None => Err(EvalError::DivisionFault),
        },
        BinaryOp::Rem => match x.checked_rem(y) {
            Some(r) => Ok(Value::U64(r)),
            None => Err(EvalError::DivisionFault),
        },
        BinaryOp::Eq => Ok(Value::Bool(x == y)),
        BinaryOp::Ne => Ok(Value::Bool(x != y)),
        BinaryOp::Lt => Ok(Value::Bool(x < y)),
        BinaryOp::Le => Ok(Value::Bool(x <= y)),
        BinaryOp::Gt => Ok(Value::Bool(x > y)),
        BinaryOp::Ge => Ok(Value::Bool(x >= y)),
        BinaryOp::And | BinaryOp::Or => Err(EvalError::TypeMismatch),
        BinaryOp::BitAnd => Ok(Value::U64(x & y)),
        BinaryOp::BitOr => Ok(Value::U64(x | y)),
        BinaryOp::BitXor => Ok(Value::U64(x ^ y)),
        BinaryOp::Shl => if y < 64 {
            Ok(Value::U64(x << y))
        } else {
            Err(EvalError::ShiftOutOfRange)
        },
        BinaryOp::Shr => if y < 64 {
            Ok(Value::U64(x >> y))
        } else {
            Err(EvalError::ShiftOutOfRange)
        },
    }
}

/// `x op y` on `u128` operands.
pub open spec fn spec_u128_binary(op: BinaryOp, x: u128, y: u128) -> Result<Value, EvalError> {
    match op {
        BinaryOp::Add => Ok(Value::U128(x.wrapping_add(y))),
        BinaryOp::Sub => Ok(Value::U128(x.wrapping_sub(y))),
        BinaryOp::Mul => Ok(Value::U128(x.wrapping_mul(y))),
        BinaryOp::Div => match x.checked_div(y) {
            Some(r) => Ok(Value::U128(r)),
            None => Err(EvalError::DivisionFault),
        },
        BinaryOp::Rem => match x.checked_rem(y) {
            Some(r) => Ok(Value::U128(r)),
            None => Err(EvalError::DivisionFault),
        },
        BinaryOp::Eq => Ok(Value::Bool(x == y)),
        BinaryOp::Ne => Ok(Value::Bool(x != y)),
        BinaryOp::Lt => Ok(Value::Bool(x < y)),
        BinaryOp::Le => Ok(Value::Bool(x <= y)),
        BinaryOp::Gt => Ok(Value::Bool(x > y)),
        BinaryOp::Ge => Ok(Value::Bool(x >= y)),
        BinaryOp::And | BinaryOp::Or => Err(EvalError::TypeMismatch),
        BinaryOp::BitAnd => Ok(Value::U128(x & y)),
        BinaryOp::BitOr => Ok(Value::U128(x | y)),
        BinaryOp::BitXor => Ok(Value::U128(x ^ y)),
        BinaryOp::Shl => if y < 128 {
            Ok(Value::U128(x << y))
        } else {
            Err(EvalError::ShiftOutOfRange)
        },
        BinaryOp::Shr => if y < 128 {
            Ok(Value::U128(x >> y))
        } else {
            Err(EvalError::ShiftOutOfRange)
        },
    }
}

fn u128_binary(op: BinaryOp, x: u128, y: u128) -> (r: Result<Value, EvalError>)
    ensures
        r == spec_u128_binary(op, x, y),
{
    match op {
        BinaryOp::Add => Ok(Value::U128(x.wrapping_add(y))),
        BinaryOp::Sub => Ok(Value::U128(x.wrapping_sub(y))),
        BinaryOp::Mul => Ok(Value::U128(x.wrapping_mul(y))),
        BinaryOp::Div => match x.checked_div(y) {
            Some(r) => Ok(Value::U128(r)),
            None => Err(EvalError::DivisionFault),
        },
        BinaryOp::Rem => match x.checked_rem(y) {
            Some(r) => Ok(Value::U128(r)),
            None => Err(EvalError::DivisionFault),
        },
        BinaryOp::Eq => Ok(Value::Bool(x == y)),
        BinaryOp::Ne => Ok(Value::Bool(x != y)),
        BinaryOp::Lt => Ok(Value::Bool(x < y)),
        BinaryOp::Le => Ok(Value::Bool(x <= y)),
        BinaryOp::Gt => Ok(Value::Bool(x > y)),
        BinaryOp::Ge => Ok(Value::Bool(x >= y)),
        BinaryOp::And | BinaryOp::Or => Err(EvalError::TypeMismatch),
        BinaryOp::BitAnd => Ok(Value::U128(x & y)),
        BinaryOp::BitOr => Ok(Value::U128(x | y)),
        BinaryOp::BitXor => Ok(Value::U128(x ^ y)),
        BinaryOp::Shl => if y < 128 {
            Ok(Value::U128(x << y))
        } else {
            Err(EvalError::ShiftOutOfRange)
        },
        BinaryOp::Shr => if y < 128 {
            Ok(Value::U128(x >> y))
        } else {
            Err(EvalError::ShiftOutOfRange)
        },
    }
}

/// `x op y` on `usize` operands.
pub open spec fn spec_usize_binary(op: BinaryOp, x: usize, y: usize) -> Result<Value, EvalError> {
    match op {
        BinaryOp::Add => Ok(Value::Usize(x.wrapping_add(y))),
        BinaryOp::Sub => Ok(Value::Usize(x.wrapping_sub(y))),
        BinaryOp::Mul => Ok(Value::Usize(x.wrapping_mul(y))),
        BinaryOp::Div => match x.checked_div(y) {
            Some(r) => Ok(Value::Usize(r)),
            None => Err(EvalError::DivisionFault),
        },
        BinaryOp::Rem => match x.checked_rem(y) {
            Some(r) => Ok(Value::Usize(r)),
            None => Err(EvalError::DivisionFault),
        },
        BinaryOp::Eq => Ok(Value::Bool(x == y)),
        BinaryOp::Ne => Ok(Value::Bool(x != y)),
        BinaryOp::Lt => Ok(Value::Bool(x < y)),
        BinaryOp::Le => Ok(Value::Bool(x <= y)),
        BinaryOp::Gt => Ok(Value::Bool(x > y)),
        BinaryOp::Ge => Ok(Value::Bool(x >= y)),
        BinaryOp::And | BinaryOp::Or => Err(EvalError::TypeMismatch),
        BinaryOp::BitAnd => Ok(Value::Usize(x & y)),
        BinaryOp::BitOr => Ok(Value::Usize(x | y)),
        BinaryOp::BitXor => Ok(Value::Usize(x ^ y)),
        BinaryOp::Shl => if y < usize::BITS as usize {
            Ok(Value::Usize(x << y))
        } else {
            Err(EvalError::ShiftOutOfRange)
        },
        BinaryOp::Shr => if y < usize::BITS as usize {
            Ok(Value::Usize(x >> y))
        } else {
            Err(EvalError::ShiftOutOfRange)
        },
    }
}

fn usize_binary(op: BinaryOp, x: usize, y: usize) -> (r: Result<Value, EvalError>)
    ensures
        r == spec_usize_binary(op, x, y),
{
    match op {
        BinaryOp::Add => Ok(Value::Usize(x.wrapping_add(y))),
        BinaryOp::Sub => Ok(Value::Usize(x.wrapping_sub(y))),
        BinaryOp::Mul => Ok(Value::Usize(x.wrapping_mul(y))),
        BinaryOp::Div => match x.checked_div(y) {
            Some(r) => Ok(Value::Usize(r)),
            None => Err(EvalError::DivisionFault),
        },
        BinaryOp::Rem => match x.checked_rem(y) {
            Some(r) => Ok(Value::Usize(r)),
            None => Err(EvalError::DivisionFault),
        },
        BinaryOp::Eq => Ok(Value::Bool(x == y)),
        BinaryOp::Ne => Ok(Value::Bool(x != y)),
        BinaryOp::Lt => Ok(Value::Bool(x < y)),
        BinaryOp::Le => Ok(Value::Bool(x <= y)),
        BinaryOp::Gt => Ok(Value::Bool(x > y)),
        BinaryOp::Ge => Ok(Value::Bool(x >= y)),
        BinaryOp::And | BinaryOp::Or => Err(EvalError::TypeMismatch),
        BinaryOp::BitAnd => Ok(Value::Usize(x & y)),
        BinaryOp::BitOr => Ok(Value::Usize(x | y)),
        BinaryOp::BitXor => Ok(Value::Usize(x ^ y)),
        BinaryOp::Shl => if y < usize::BITS as usize {
            Ok(Value::Usize(x << y))
        } else {
            Err(EvalError::ShiftOutOfRange)
        },
        BinaryOp::Shr => if y < usize::BITS as usize {
            Ok(Value::Usize(x >> y))
        } else {
            Err(EvalError::ShiftOutOfRange)
        },
    }
}

/// `x op y` on `bool` operands, which the machine code computes on one-bit
/// integers: comparisons and division are unsigned (`false < true`, as in
/// Rust), addition and subtraction are exclusive or, multiplication is
/// conjunction.
pub open spec fn spec_bool_binary(op: BinaryOp, x: bool, y: bool) -> Result<Value, EvalError> {
    match op {
        BinaryOp::Add | BinaryOp::Sub | BinaryOp::BitXor | BinaryOp::Ne => Ok(Value::Bool(x != y)),
        BinaryOp::Mul | BinaryOp::And | BinaryOp::BitAnd => Ok(Value::Bool(x && y)),
        BinaryOp::Or | BinaryOp::BitOr => Ok(Value::Bool(x || y)),
        BinaryOp::Div => if y {
            Ok(Value::Bool(x))
        } else {
            Err(EvalError::DivisionFault)
        },
        BinaryOp::Rem => if y {
            Ok(Value::Bool(false))
        } else {
            Err(EvalError::DivisionFault)
        },
        BinaryOp::Eq => Ok(Value::Bool(x == y)),
        BinaryOp::Lt => Ok(Value::Bool(!x && y)),
        BinaryOp::Le => Ok(Value::Bool(!x || y)),
        BinaryOp::Gt => Ok(Value::Bool(x && !y)),
        BinaryOp::Ge => Ok(Value::Bool(x || !y)),
        BinaryOp::Shl | BinaryOp::Shr => if !y {
            Ok(Value::Bool(x))
        } else {
            Err(EvalError::ShiftOutOfRange)
        },
    }
}

fn bool_binary(op: BinaryOp, x: bool, y: bool) -> (r: Result<Value, EvalError>)
    ensures
        r == spec_bool_binary(op, x, y),
{
    match op {
        BinaryOp::Add | BinaryOp::Sub | BinaryOp::BitXor | BinaryOp::Ne => Ok(Value::Bool(x != y)),
        BinaryOp::Mul | BinaryOp::And | BinaryOp::BitAnd => Ok(Value::Bool(x && y)),
        BinaryOp::Or | BinaryOp::BitOr => Ok(Value::Bool(x || y)),
        BinaryOp::Div => if y {
            Ok(Value::Bool(x))
        } else {
            Err(EvalError::DivisionFault)
        },
        BinaryOp::Rem => if y {
            Ok(Value::Bool(false))
        } else {
            Err(EvalError::DivisionFault)
        },
        BinaryOp::Eq => Ok(Value::Bool(x == y)),
        BinaryOp::Lt => Ok(Value::Bool(!x && y)),
        BinaryOp::Le => Ok(Value::Bool(!x || y)),
        BinaryOp::Gt => Ok(Value::Bool(x && !y)),
        BinaryOp::Ge => Ok(Value::Bool(x || !y)),
        BinaryOp::Shl | BinaryOp::Shr => if !y {
            Ok(Value::Bool(x))
        } else {
            Err(EvalError::ShiftOutOfRange)
        },
    }
}

/// `a op b` on scalar operands of the same type.
pub open spec fn spec_scalar_binary(op: BinaryOp, a: Value, b: Value) -> Result<Value, EvalError> {
    match (a, b) {
        (Value::I8(x), Value::I8(y)) => spec_i8_binary(op, x, y),
        (Value::I16(x), Value::I16(y)) => spec_i16_binary(op, x, y),
        (Value::I32(x), Value::I32(y)) => spec_i32_binary(op, x, y),
        (Value::I64(x), Value::I64(y)) => spec_i64_binary(op, x, y),
        (Value::I128(x), Value::I128(y)) => spec_i128_binary(op, x, y),
        (Value::U8(x), Value::U8(y)) => spec_u8_binary(op, x, y),
        (Value::U16(x), Value::U16(y)) => spec_u16_binary(op, x, y),
        (Value::U32(x), Value::U32(y)) => spec_u32_binary(op, x, y),
        (Value::U64(x), Value::U64(y)) => spec_u64_binary(op, x, y),
        (Value::U128(x), Value::U128(y)) => spec_u128_binary(op, x, y),
        (Value::Usize(x), Value::Usize(y)) => spec_usize_binary(op, x, y),
        (Value::Bool(x), Value::Bool(y)) => spec_bool_binary(op, x, y),
        (Value::F32(_), Value::F32(_)) => Err(EvalError::Unsupported),
        (Value::F64(_), Value::F64(_)) => Err(EvalError::Unsupported),
        _ => Err(EvalError::TypeMismatch),
    }
}

/// Computes `a op b` on scalar operands.
pub fn scalar_binary(op: BinaryOp, a: &Value, b: &Value) -> (r: Result<Value, EvalError>)
    ensures
        r == spec_scalar_binary(op, *a, *b),
{
    match (a, b) {
        (Value::I8(x), Value::I8(y)) => i8_binary(op, *x, *y),
        (Value::I16(x), Value::I16(y)) => i16_binary(op, *x, *y),
        (Value::I32(x), Value::I32(y)) => i32_binary(op, *x, *y),
        (Value::I64(x), Value::I64(y)) => i64_binary(op, *x, *y),
        (Value::I128(x), Value::I128(y)) => i128_binary(op, *x, *y),
        (Value::U8(x), Value::U8(y)) => u8_binary(op, *x, *y),
        (Value::U16(x), Value::U16(y)) => u16_binary(op, *x, *y),
        (Value::U32(x), Value::U32(y)) => u32_binary(op, *x, *y),
        (Value::U64(x), Value::U64(y)) => u64_binary(op, *x, *y),
        (Value::U128(x), Value::U128(y)) => u128_binary(op, *x, *y),
        (Value::Usize(x), Value::Usize(y)) => usize_binary(op, *x, *y),
        (Value::Bool(x), Value::Bool(y)) => bool_binary(op, *x, *y),
        (Value::F32(_), Value::F32(_)) => Err(EvalError::Unsupported),
        (Value::F64(_), Value::F64(_)) => Err(EvalError::Unsupported),
        _ => Err(EvalError::TypeMismatch),
    }
}

/// `op a` on a scalar operand: `!` is the bitwise complement of integers and
/// the negation of booleans; `-` wraps around, and leaves a one-bit boolean
/// unchanged.
pub open spec fn spec_scalar_unary(op: UnaryOp, a: Value) -> Result<Value, EvalError> {
    match a {
        Value::I8(x) => match op {
            UnaryOp::Not => Ok(Value::I8(!x)),
            UnaryOp::Neg => Ok(Value::I8((0 as i8).wrapping_sub(x))),
        },
        Value::I16(x) => match op {
            UnaryOp::Not => Ok(Value::I16(!x)),
            UnaryOp::Neg => Ok(Value::I16((0 as i16).wrapping_sub(x))),
        },
        Value::I32(x) => match op {
            UnaryOp::Not => Ok(Value::I32(!x)),
            UnaryOp::Neg => Ok(Value::I32((0 as i32).wrapping_sub(x))),
        },
        Value::I64(x) => match op {
            UnaryOp::Not => Ok(Value::I64(!x)),
            UnaryOp::Neg => Ok(Value::I64((0 as i64).wrapping_sub(x))),
        },
        Value::I128(x) => match op {
            UnaryOp::Not => Ok(Value::I128(!x)),
            UnaryOp::Neg => Ok(Value::I128((0 as i128).wrapping_sub(x))),
        },
        Value::U8(x) => match op {
            UnaryOp::Not => Ok(Value::U8(!x)),
            UnaryOp::Neg => Ok(Value::U8((0 as u8).wrapping_sub(x))),
        },
        Value::U16(x) => match op {
            UnaryOp::Not => Ok(Value::U16(!x)),
            UnaryOp::Neg => Ok(Value::U16((0 as u16).wrapping_sub(x))),
        },
        Value::U32(x) => match op {
            UnaryOp::Not => Ok(Value::U32(!x)),
            UnaryOp::Neg => Ok(Value::U32((0 as u32).wrapping_sub(x))),
        },
        Value::U64(x) => match op {
            UnaryOp::Not => Ok(Value::U64(!x)),
            UnaryOp::Neg => Ok(Value::U64((0 as u64).wrapping_sub(x))),
        },
        Value::U128(x) => match op {
            UnaryOp::Not => Ok(Value::U128(!x)),
            UnaryOp::Neg => Ok(Value::U128((0 as u128).wrapping_sub(x))),
        },
        Value::Usize(x) => match op {
            UnaryOp::Not => Ok(Value::Usize(!x)),
            UnaryOp::Neg => Ok(Value::Usize((0 as usize).wrapping_sub(x))),
        },
        Value::Bool(x) => match op {
            UnaryOp::Not => Ok(Value::Bool(!x)),
            UnaryOp::Neg => Ok(Value::Bool(x)),
        },
        Value::F32(_) | Value::F64(_) => match op {
            UnaryOp::Not => Err(EvalError::TypeMismatch),
            UnaryOp::Neg => Err(EvalError::Unsupported),
        },
        Value::Array(_) => Err(EvalError::TypeMismatch),
    }
}

/// Computes `op a`.
pub fn scalar_unary(op: UnaryOp, a: &Value) -> (r: Result<Value, EvalError>)
    ensures
        r == spec_scalar_unary(op, *a),
{
    match *a {
        Value::I8(x) => match op {
            UnaryOp::Not => Ok(Value::I8(!x)),
            UnaryOp::Neg => Ok(Value::I8((0 as i8).wrapping_sub(x))),
        },
        Value::I16(x) => match op {
            UnaryOp::Not => Ok(Value::I16(!x)),
            UnaryOp::Neg => Ok(Value::I16((0 as i16).wrapping_sub(x))),
        },
        Value::I32(x) => match op {
            UnaryOp::Not => Ok(Value::I32(!x)),
            UnaryOp::Neg => Ok(Value::I32((0 as i32).wrapping_sub(x))),
        },
        Value::I64(x) => match op {
            UnaryOp::Not => Ok(Value::I64(!x)),
            UnaryOp::Neg => Ok(Value::I64((0 as i64).wrapping_sub(x))),
        },
        Value::I128(x) => match op {
            UnaryOp::Not => Ok(Value::I128(!x)),
            UnaryOp::Neg => Ok(Value::I128((0 as i128).wrapping_sub(x))),
        },
        Value::U8(x) => match op {
            UnaryOp::Not => Ok(Value::U8(!x)),
            UnaryOp::Neg => Ok(Value::U8((0 as u8).wrapping_sub(x))),
        },
        Value::U16(x) => match op {
            UnaryOp::Not => Ok(Value::U16(!x)),
            UnaryOp::Neg => Ok(Value::U16((0 as u16).wrapping_sub(x))),
        },
        Value::U32(x) => match op {
            UnaryOp::Not => Ok(Value::U32(!x)),
            UnaryOp::Neg => Ok(Value::U32((0 as u32).wrapping_sub(x))),
        },
        Value::U64(x) => match op {
            UnaryOp::Not => Ok(Value::U64(!x)),
            UnaryOp::Neg => Ok(Value::U64((0 as u64).wrapping_sub(x))),
        },
        Value::U128(x) => match op {
            UnaryOp::Not => Ok(Value::U128(!x)),
            UnaryOp::Neg => Ok(Value::U128((0 as u128).wrapping_sub(x))),
        },
        Value::Usize(x) => match op {
            UnaryOp::Not => Ok(Value::Usize(!x)),
            UnaryOp::Neg => Ok(Value::Usize((0 as usize).wrapping_sub(x))),
        },
        Value::Bool(x) => match op {
            UnaryOp::Not => Ok(Value::Bool(!x)),
            UnaryOp::Neg => Ok(Value::Bool(x)),
        },
        Value::F32(_) | Value::F64(_) => match op {
            UnaryOp::Not => Err(EvalError::TypeMismatch),
            UnaryOp::Neg => Err(EvalError::Unsupported),
        },
        Value::Array(_) => Err(EvalError::TypeMismatch),
    }
}

/// The two's complement bit pattern of an integer or boolean, sign-extended
/// to 128 bits.
pub open spec fn spec_wide(a: Value) -> Option<u128> {
    match a {
        Value::I8(x) => Some(x as u128),
        Value::I16(x) => Some(x as u128),
        Value::I32(x) => Some(x as u128),
        Value::I64(x) => Some(x as u128),
        Value::I128(x) => Some(x as u128),
        Value::U8(x) => Some(x as u128),
        Value::U16(x) => Some(x as u128),
        Value::U32(x) => Some(x as u128),
        Value::U64(x) => Some(x as u128),
        Value::U128(x) => Some(x as u128),
        Value::Usize(x) => Some(x as u128),
        Value::Bool(x) => Some(if x { 1u128 } else { 0u128 }),
        _ => None,
    }
}

fn wide(a: &Value) -> (r: Option<u128>)
    ensures
        r == spec_wide(*a),
{
    match *a {
        Value::I8(x) => Some(x as u128),
        Value::I16(x) => Some(x as u128),
        Value::I32(x) => Some(x as u128),
        Value::I64(x) => Some(x as u128),
        Value::I128(x) => Some(x as u128),
        Value::U8(x) => Some(x as u128),
        Value::U16(x) => Some(x as u128),
        Value::U32(x) => Some(x as u128),
        Value::U64(x) => Some(x as u128),
        Value::U128(x) => Some(x as u128),
        Value::Usize(x) => Some(x as u128),
        Value::Bool(x) => Some(if x { 1u128 } else { 0u128 }),
        _ => None,
    }
}

/// The low bits of `w` at the integer type `target`.
pub open spec fn spec_narrow(w: u128, target: TypeInfo) -> Result<Value, EvalError> {
    match target {
        TypeInfo::I8 => Ok(Value::I8(w as i8)),
        TypeInfo::I16 => Ok(Value::I16(w as i16)),
        TypeInfo::I32 => Ok(Value::I32(w as i32)),
        TypeInfo::I64 => Ok(Value::I64(w as i64)),
        TypeInfo::I128 => Ok(Value::I128(w as i128)),
        TypeInfo::U8 => Ok(Value::U8(w as u8)),
        TypeInfo::U16 => Ok(Value::U16(w as u16)),
        TypeInfo::U32 => Ok(Value::U32(w as u32)),
        TypeInfo::U64 => Ok(Value::U64(w as u64)),
        TypeInfo::U128 => Ok(Value::U128(w as u128)),
        TypeInfo::Usize => Ok(Value::Usize(w as usize)),
        TypeInfo::F32 | TypeInfo::F64 => Err(EvalError::Unsupported),
        _ => Err(EvalError::TypeMismatch),
    }
}

fn narrow(w: u128, target: &TypeInfo) -> (r: Result<Value, EvalError>)
    ensures
        r == spec_narrow(w, *target),
{
    match target {
        TypeInfo::I8 => Ok(Value::I8(w as i8)),
        TypeInfo::I16 => Ok(Value::I16(w as i16)),
        TypeInfo::I32 => Ok(Value::I32(w as i32)),
        TypeInfo::I64 => Ok(Value::I64(w as i64)),
        TypeInfo::I128 => Ok(Value::I128(w as i128)),
        TypeInfo::U8 => Ok(Value::U8(w as u8)),
        TypeInfo::U16 => Ok(Value::U16(w as u16)),
        TypeInfo::U32 => Ok(Value::U32(w as u32)),
        TypeInfo::U64 => Ok(Value::U64(w as u64)),
        TypeInfo::U128 => Ok(Value::U128(w as u128)),
        TypeInfo::Usize => Ok(Value::Usize(w as usize)),
        TypeInfo::F32 | TypeInfo::F64 => Err(EvalError::Unsupported),
        _ => Err(EvalError::TypeMismatch),
    }
}

/// `a as target`: integers and booleans convert to integer types as Rust's
/// `as` does (sign or zero extension, then truncation).
pub open spec fn spec_scalar_cast(a: Value, target: TypeInfo) -> Result<Value, EvalError> {
    match spec_wide(a) {
        Some(w) => spec_narrow(w, target),
        None => if a is F32 || a is F64 {
            Err(EvalError::Unsupported)
        } else {
            Err(EvalError::TypeMismatch)
        },
    }
}

/// Computes `a as target`.
pub fn scalar_cast(a: &Value, target: &TypeInfo) -> (r: Result<Value, EvalError>)
    ensures
        r == spec_scalar_cast(*a, *target),
{
    match wide(a) {
        Some(w) => narrow(w, target),
        None => match a {
            Value::F32(_) | Value::F64(_) => Err(EvalError::Unsupported),
            _ => Err(EvalError::TypeMismatch),
        },
    }
}

/// The value one at the integer type of `a`.
pub open spec fn spec_one_like(a: Value) -> Option<Value> {
    match a {
        Value::I8(_) => Some(Value::I8(1)),
        Value::I16(_) => Some(Value::I16(1)),
        Value::I32(_) => Some(Value::I32(1)),
        Value::I64(_) => Some(Value::I64(1)),
        Value::I128(_) => Some(Value::I128(1)),
        Value::U8(_) => Some(Value::U8(1)),
        Value::U16(_) => Some(Value::U16(1)),
        Value::U32(_) => Some(Value::U32(1)),
        Value::U64(_) => Some(Value::U64(1)),
        Value::U128(_) => Some(Value::U128(1)),
        Value::Usize(_) => Some(Value::Usize(1)),
        _ => None,
    }
}

/// The value one at the integer type of `a`, if `a` is an integer.
pub fn one_like(a: &Value) -> (r: Option<Value>)
    ensures
        r == spec_one_like(*a),
{
    match a {
        Value::I8(_) => Some(Value::I8(1)),
        Value::I16(_) => Some(Value::I16(1)),
        Value::I32(_) => Some(Value::I32(1)),
        Value::I64(_) => Some(Value::I64(1)),
        Value::I128(_) => Some(Value::I128(1)),
        Value::U8(_) => Some(Value::U8(1)),
        Value::U16(_) => Some(Value::U16(1)),
        Value::U32(_) => Some(Value::U32(1)),
        Value::U64(_) => Some(Value::U64(1)),
        Value::U128(_) => Some(Value::U128(1)),
        Value::Usize(_) => Some(Value::Usize(1)),
        _ => None,
    }
}

} // verus!
