//! Constant values that appear in closure bodies.
use vstd::prelude::*;

verus! {

/// A constant. Floating-point constants are held by their IEEE-754 bit
/// patterns (`f32::to_bits`, `f64::to_bits`), so that every value of this
/// type is a plain integer or a sequence of them.
#[derive(Debug, PartialEq, Eq)]
pub enum Value {
    F32(u32),
    F64(u64),
    I8(i8),
    I16(i16),
    I32(i32),
    I64(i64),
    I128(i128),
    U8(u8),
    U16(u16),
    U32(u32),
    U64(u64),
    U128(u128),
    Usize(usize),
    Bool(bool),
    Array(Vec<Value>),
}

impl Value {
    /// Whether the value is a single number or boolean (not an array).
    pub open spec fn is_scalar(&self) -> bool {
        !(self is Array)
    }
}

} // verus!
