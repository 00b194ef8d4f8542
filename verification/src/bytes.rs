//! The in-memory encoding of scalar values, as a JIT-compiled closure reads
//! its arguments and writes its result: the bits of the value, least
//! significant byte first, over the width of its type.
use vstd::prelude::*;
use crate::scalar::spec_wide;
use crate::types::TypeInfo;
use crate::value::Value;

verus! {

/// The number of bytes a scalar occupies; `usize` has eight.
pub open spec fn byte_width(v: Value) -> Option<nat> {
    match v {
        Value::I8(_) | Value::U8(_) | Value::Bool(_) => Some(1),
        Value::I16(_) | Value::U16(_) => Some(2),
        Value::I32(_) | Value::U32(_) | Value::F32(_) => Some(4),
        Value::I64(_) | Value::U64(_) | Value::F64(_) | Value::Usize(_) => Some(8),
        Value::I128(_) | Value::U128(_) => Some(16),
        Value::Array(_) => None,
    }
}

/// The bits of a scalar: its two's complement bits, sign-extended to 128
/// bits, or the bits of its floating-point encoding.
pub open spec fn bit_pattern(v: Value) -> u128 {
    match v {
        Value::F32(bits) => bits as u128,
        Value::F64(bits) => bits as u128,
        _ => match spec_wide(v) {
            Some(w) => w,
            None => 0,
        },
    }
}

/// Byte `i` of the bits `w`, counting from the least significant.
pub open spec fn byte_of(w: u128, i: nat) -> u8 {
    ((w >> (8 * i) as u128) & 0xffu128) as u8
}

/// The `n` least significant bytes of `w`, least significant first.
pub open spec fn le_bytes(w: u128, n: nat) -> Seq<u8> {
    Seq::new(n, |i: int| byte_of(w, i as nat))
}

/// The in-memory encoding of a scalar; arrays have none here.
pub fn value_to_bytes(value: &Value) -> (r: Option<Vec<u8>>)
    ensures
        match byte_width(*value) {
            None => r is None,
            Some(n) => r matches Some(bytes) && bytes@ == le_bytes(bit_pattern(*value), n),
        },
{
    let (w, n): (u128, usize) = match value {
        Value::I8(x) => (*x as u128, 1),
        Value::I16(x) => (*x as u128, 2),
        Value::I32(x) => (*x as u128, 4),
        Value::I64(x) => (*x as u128, 8),
        Value::I128(x) => (*x as u128, 16),
        Value::U8(x) => (*x as u128, 1),
        Value::U16(x) => (*x as u128, 2),
        Value::U32(x) => (*x as u128, 4),
        Value::U64(x) => (*x as u128, 8),
        Value::U128(x) => (*x, 16),
        Value::Usize(x) => (*x as u128, 8),
        Value::Bool(b) => (
            if *b {
                1u128
            } else {
                0u128
            },
            1,
        ),
        Value::F32(bits) => (*bits as u128, 4),
        Value::F64(bits) => (*bits as u128, 8),
        Value::Array(_) => {
            return None;
        },
    };
    let mut out: Vec<u8> = Vec::new();
    let mut i: usize = 0;
    while i < n
        invariant
            0 <= i <= n,
            n <= 16,
            out@ == le_bytes(w, n as nat).take(i as int),
        decreases n - i,
    {
        let shift: u128 = 8 * (i as u128);
        let byte = ((w >> shift) & 0xffu128) as u8;
        proof {
            assert(out@.push(byte) =~= le_bytes(w, n as nat).take(i + 1));
        }
        out.push(byte);
        i = i + 1;
    }
    proof {
        assert(le_bytes(w, n as nat).take(n as int) =~= le_bytes(w, n as nat));
    }
    Some(out)
}


/// The number that little-endian bytes denote: `bytes[0] + 256 * bytes[1]
/// + 256^2 * bytes[2] + ...`.
pub open spec fn little_endian(bytes: Seq<u8>) -> nat
    decreases bytes.len(),
{
    if bytes.len() == 0 {
        0
    } else {
        (bytes[0] + 256 * little_endian(bytes.drop_first())) as nat
    }
}

/// `256` to the power `n`.
pub open spec fn byte_scale(n: nat) -> nat
    decreases n,
{
    if n == 0 {
        1
    } else {
        256 * byte_scale((n - 1) as nat)
    }
}

/// Little-endian bytes denote less than `256` to the power of their number.
pub proof fn lemma_little_endian_bound(bytes: Seq<u8>)
    ensures
        little_endian(bytes) < byte_scale(bytes.len()),
    decreases bytes.len(),
{
    if bytes.len() > 0 {
        let rest = bytes.drop_first();
        lemma_little_endian_bound(rest);
        let p = byte_scale(rest.len());
        assert(bytes[0] + 256 * little_endian(rest) < 256 * p) by (nonlinear_arith)
            requires
                bytes[0] < 256,
                little_endian(rest) < p,
        ;
    }
}

/// Powers of `256` grow with the exponent.
proof fn lemma_byte_scale_grows(m: nat, n: nat)
    requires
        m <= n,
    ensures
        byte_scale(m) <= byte_scale(n),
    decreases n,
{
    if m < n {
        lemma_byte_scale_grows(m, (n - 1) as nat);
    }
}

/// The number of bytes a value of type `t` occupies, for scalar types.
pub open spec fn type_width(t: TypeInfo) -> Option<nat> {
    match t {
        TypeInfo::I8 | TypeInfo::U8 | TypeInfo::Bool => Some(1),
        TypeInfo::I16 | TypeInfo::U16 => Some(2),
        TypeInfo::I32 | TypeInfo::U32 | TypeInfo::F32 => Some(4),
        TypeInfo::I64 | TypeInfo::U64 | TypeInfo::F64 | TypeInfo::Usize => Some(8),
        TypeInfo::I128 | TypeInfo::U128 => Some(16),
        _ => None,
    }
}

/// The value of type `t` whose bits are the number `w`: its low bits for
/// integers, `w != 0` for `bool`, the encoding for floating-point types.
pub open spec fn value_of_bits(w: u128, t: TypeInfo) -> Option<Value> {
    match t {
        TypeInfo::I8 => Some(Value::I8(w as i8)),
        TypeInfo::I16 => Some(Value::I16(w as i16)),
        TypeInfo::I32 => Some(Value::I32(w as i32)),
        TypeInfo::I64 => Some(Value::I64(w as i64)),
        TypeInfo::I128 => Some(Value::I128(w as i128)),
        TypeInfo::U8 => Some(Value::U8(w as u8)),
        TypeInfo::U16 => Some(Value::U16(w as u16)),
        TypeInfo::U32 => Some(Value::U32(w as u32)),
        TypeInfo::U64 => Some(Value::U64(w as u64)),
        TypeInfo::U128 => Some(Value::U128(w)),
        TypeInfo::Usize => Some(Value::Usize(w as usize)),
        TypeInfo::Bool => Some(Value::Bool(w != 0)),
        TypeInfo::F32 => Some(Value::F32(w as u32)),
        TypeInfo::F64 => Some(Value::F64(w as u64)),
        _ => None,
    }
}

/// The value of type `t` that the in-memory bytes `bytes` hold: there must
/// be exactly as many as the type occupies.
pub fn value_from_bytes(bytes: &[u8], t: &TypeInfo) -> (r: Option<Value>)
    ensures
        match type_width(*t) {
            Some(n) if n == bytes@.len() => r == value_of_bits(little_endian(bytes@) as u128, *t),
            _ => r is None,
        },
{
    let n: usize = match t {
        TypeInfo::I8 | TypeInfo::U8 | TypeInfo::Bool => 1,
        TypeInfo::I16 | TypeInfo::U16 => 2,
        TypeInfo::I32 | TypeInfo::U32 | TypeInfo::F32 => 4,
        TypeInfo::I64 | TypeInfo::U64 | TypeInfo::F64 | TypeInfo::Usize => 8,
        TypeInfo::I128 | TypeInfo::U128 => 16,
        _ => {
            return None;
        },
    };
    if bytes.len() != n {
        return None;
    }
    let mut w: u128 = 0;
    let mut i: usize = n;
    proof {
        assert(bytes@.skip(n as int) =~= Seq::<u8>::empty());
    }
    while i > 0
        invariant
            0 <= i <= n,
            n == bytes@.len(),
            n <= 16,
            w == little_endian(bytes@.skip(i as int)),
        decreases i,
    {
        let ghost rest = bytes@.skip(i as int);
        let ghost next = bytes@.skip(i - 1);
        proof {
            assert(next.drop_first() =~= rest);
            assert(next[0] == bytes@[i - 1]);
            lemma_little_endian_bound(next);
            lemma_byte_scale_grows(next.len(), 16);
            reveal_with_fuel(byte_scale, 17);
            assert(byte_scale(16) == 0x1_0000_0000_0000_0000_0000_0000_0000_0000);
        }
        w = (bytes[i - 1] as u128) + 256 * w;
        i = i - 1;
    }
    proof {
        assert(bytes@.skip(0) =~= bytes@);
    }
    match t {
        TypeInfo::I8 => Some(Value::I8(w as i8)),
        TypeInfo::I16 => Some(Value::I16(w as i16)),
        TypeInfo::I32 => Some(Value::I32(w as i32)),
        TypeInfo::I64 => Some(Value::I64(w as i64)),
        TypeInfo::I128 => Some(Value::I128(w as i128)),
        TypeInfo::U8 => Some(Value::U8(w as u8)),
        TypeInfo::U16 => Some(Value::U16(w as u16)),
        TypeInfo::U32 => Some(Value::U32(w as u32)),
        TypeInfo::U64 => Some(Value::U64(w as u64)),
        TypeInfo::U128 => Some(Value::U128(w)),
        TypeInfo::Usize => Some(Value::Usize(w as usize)),
        TypeInfo::Bool => Some(Value::Bool(w != 0)),
        TypeInfo::F32 => Some(Value::F32(w as u32)),
        TypeInfo::F64 => Some(Value::F64(w as u64)),
        _ => None,
    }
}

} // verus!
