//! Laws that relate the operations of the library: what a write gives back
//! to a later read, when a loop stops, which operations undo each other, and
//! what the lowering and the type checker agree on.
use vstd::prelude::*;
use crate::bytes::{
    bit_pattern, byte_of, byte_scale, le_bytes, little_endian, value_of_bits,
};
use crate::datum::Val;
use crate::expr::{Block, Closure, Expr, Statement};
use crate::interp::{index_val, spec_eval};
use crate::lowering::{
    Shape, binary_shape, is_comparison, llvm_repr, scalar_kind, spec_int_instruction,
};
use crate::program::{
    spec_assign_index, spec_call, spec_run_block, spec_run_for, spec_run_statement, spec_run_statements,
    spec_run_while,
};
use crate::scalar::{EvalError, spec_scalar_binary, spec_scalar_cast, spec_wide};
use crate::types::{TypeInfo, TypeModel};
use crate::typing::{BinaryOp, TypeError};
use crate::value::Value;

verus! {

/// The type of a scalar value, as a type description.
pub open spec fn own_type(v: Value) -> Option<TypeInfo> {
    match v {
        Value::I8(_) => Some(TypeInfo::I8),
        Value::I16(_) => Some(TypeInfo::I16),
        Value::I32(_) => Some(TypeInfo::I32),
        Value::I64(_) => Some(TypeInfo::I64),
        Value::I128(_) => Some(TypeInfo::I128),
        Value::U8(_) => Some(TypeInfo::U8),
        Value::U16(_) => Some(TypeInfo::U16),
        Value::U32(_) => Some(TypeInfo::U32),
        Value::U64(_) => Some(TypeInfo::U64),
        Value::U128(_) => Some(TypeInfo::U128),
        Value::Usize(_) => Some(TypeInfo::Usize),
        _ => None,
    }
}

/// Integer addition wraps, and subtracting the same operand undoes it: for
/// operands of one integer type (or two `bool`s, where both are exclusive
/// or), `(a + b) - b == a`.
pub proof fn law_add_then_sub(a: Value, b: Value)
    requires
        spec_scalar_binary(BinaryOp::Add, a, b) is Ok,
    ensures
        spec_scalar_binary(BinaryOp::Sub, spec_scalar_binary(BinaryOp::Add, a, b)->Ok_0, b)
            == Ok::<Value, EvalError>(a),
{
    match (a, b) {
        (Value::I8(x), Value::I8(y)) => assert(x.wrapping_add(y).wrapping_sub(y) == x),
        (Value::I16(x), Value::I16(y)) => assert(x.wrapping_add(y).wrapping_sub(y) == x),
        (Value::I32(x), Value::I32(y)) => assert(x.wrapping_add(y).wrapping_sub(y) == x),
        (Value::I64(x), Value::I64(y)) => assert(x.wrapping_add(y).wrapping_sub(y) == x),
        (Value::I128(x), Value::I128(y)) => assert(x.wrapping_add(y).wrapping_sub(y) == x),
        (Value::U8(x), Value::U8(y)) => assert(x.wrapping_add(y).wrapping_sub(y) == x),
        (Value::U16(x), Value::U16(y)) => assert(x.wrapping_add(y).wrapping_sub(y) == x),
        (Value::U32(x), Value::U32(y)) => assert(x.wrapping_add(y).wrapping_sub(y) == x),
        (Value::U64(x), Value::U64(y)) => assert(x.wrapping_add(y).wrapping_sub(y) == x),
        (Value::U128(x), Value::U128(y)) => assert(x.wrapping_add(y).wrapping_sub(y) == x),
        (Value::Usize(x), Value::Usize(y)) => assert(x.wrapping_add(y).wrapping_sub(y) == x),
        _ => {},
    }
}

/// A comparison of two scalars of one type gives a `bool`; any other
/// operator that succeeds gives a value of the operands' type.
pub proof fn law_binary_result_type(op: BinaryOp, a: Value, b: Value)
    requires
        spec_scalar_binary(op, a, b) is Ok,
    ensures
        is_comparison(op) ==> spec_scalar_binary(op, a, b)->Ok_0 is Bool,
        !is_comparison(op) && own_type(a) is Some ==> own_type(spec_scalar_binary(op, a, b)->Ok_0)
            == own_type(a),
{
}

/// Casting an integer to `i128` and back to its own type gives it back.
pub proof fn law_cast_round_trip(a: Value)
    requires
        own_type(a) is Some,
    ensures
        spec_scalar_cast(a, TypeInfo::I128) is Ok,
        spec_scalar_cast(spec_scalar_cast(a, TypeInfo::I128)->Ok_0, own_type(a)->0)
            == Ok::<Value, EvalError>(a),
{
    match a {
        Value::I8(x) => assert(((((x as u128) as i128) as u128) as i8) == x) by (bit_vector),
        Value::I16(x) => assert(((((x as u128) as i128) as u128) as i16) == x) by (bit_vector),
        Value::I32(x) => assert(((((x as u128) as i128) as u128) as i32) == x) by (bit_vector),
        Value::I64(x) => assert(((((x as u128) as i128) as u128) as i64) == x) by (bit_vector),
        Value::I128(x) => assert(((((x as u128) as i128) as u128) as i128) == x) by (bit_vector),
        Value::U8(x) => assert(((((x as u128) as i128) as u128) as u8) == x) by (bit_vector),
        Value::U16(x) => assert(((((x as u128) as i128) as u128) as u16) == x) by (bit_vector),
        Value::U32(x) => assert(((((x as u128) as i128) as u128) as u32) == x) by (bit_vector),
        Value::U64(x) => assert(((((x as u128) as i128) as u128) as u64) == x) by (bit_vector),
        Value::U128(x) => assert(((((x as u128) as i128) as u128) as u128) == x) by (bit_vector),
        Value::Usize(x) => assert(((((x as u128) as i128) as u128) as usize) == x) by (bit_vector),
        _ => {},
    }
}

/// After `let` introduces local `local`, reading it gives the value of the
/// initializer, and the earlier entries are unchanged.
pub proof fn law_let_reads_back(
    captures: Seq<Val>,
    arguments: nat,
    env: Seq<Val>,
    local: usize,
    type_info: TypeInfo,
    value: Expr,
    mutable: bool,
    fuel: nat,
)
    requires
        spec_run_statement(
            captures,
            arguments,
            env,
            Statement::Let { local, type_info, value, mutable },
            fuel,
        ) is Ok,
    ensures
        ({
            let after = spec_run_statement(
                captures,
                arguments,
                env,
                Statement::Let { local, type_info, value, mutable },
                fuel,
            )->Ok_0;
            &&& after.len() == env.len() + 1
            &&& after.take(env.len() as int) == env
            &&& spec_eval(captures, env, value) == Ok::<Val, EvalError>(after[arguments + local])
        }),
{
    let after = spec_run_statement(
        captures,
        arguments,
        env,
        Statement::Let { local, type_info, value, mutable },
        fuel,
    )->Ok_0;
    assert(after.take(env.len() as int) =~= env);
}

/// After assigning to local `local`, reading it gives the assigned value,
/// and every other entry is unchanged.
pub proof fn law_assign_reads_back(
    captures: Seq<Val>,
    arguments: nat,
    env: Seq<Val>,
    local: usize,
    value: Expr,
    fuel: nat,
)
    requires
        spec_run_statement(captures, arguments, env, Statement::Assign { local, value }, fuel) is Ok,
    ensures
        ({
            let after = spec_run_statement(
                captures,
                arguments,
                env,
                Statement::Assign { local, value },
                fuel,
            )->Ok_0;
            &&& after.len() == env.len()
            &&& forall|i: int| 0 <= i < env.len() && i != arguments + local ==> after[i] == env[i]
            &&& spec_eval(captures, env, value) == Ok::<Val, EvalError>(after[arguments + local])
        }),
{
}

/// After `sequence[index] = value` on an argument, reading that position
/// gives the written value, and the other entries are unchanged.
pub proof fn law_assign_index_reads_back(
    captures: Seq<Val>,
    env: Seq<Val>,
    slot: usize,
    index: Expr,
    value: Expr,
)
    requires
        spec_assign_index(captures, env, Expr::Argument(slot), index, value) is Ok,
    ensures
        ({
            let after = spec_assign_index(captures, env, Expr::Argument(slot), index, value)->Ok_0;
            &&& after.len() == env.len()
            &&& forall|i: int| 0 <= i < env.len() && i != slot ==> after[i] == env[i]
            &&& index_val(after[slot as int], spec_eval(captures, env, index)->Ok_0) == spec_eval(
                captures,
                env,
                value,
            )
        }),
{
}

/// A `while` loop that finishes leaves its condition false.
pub proof fn law_while_exits_on_false(
    captures: Seq<Val>,
    arguments: nat,
    env: Seq<Val>,
    condition: Expr,
    body: Block,
    fuel: nat,
)
    requires
        spec_run_while(captures, arguments, env, condition, body, fuel) is Ok,
    ensures
        spec_eval(
            captures,
            spec_run_while(captures, arguments, env, condition, body, fuel)->Ok_0,
            condition,
        ) == Ok::<Val, EvalError>(Val::Scalar(Value::Bool(false))),
    decreases fuel,
{
    match spec_eval(captures, env, condition) {
        Ok(Val::Scalar(Value::Bool(true))) => {
            let after = spec_run_block(
                captures,
                arguments,
                env,
                body,
                (fuel - 1) as nat,
            )->Ok_0.0;
            law_while_exits_on_false(captures, arguments, after, condition, body, (fuel - 1) as nat);
        },
        _ => {},
    }
}

/// Lowering a comparison gives a `bool` value.
pub proof fn law_comparison_lowers_to_bool(
    op: BinaryOp,
    operand: Result<TypeModel, TypeError>,
    lhs: Result<Shape, crate::lowering::LowerError>,
    rhs: Result<Shape, crate::lowering::LowerError>,
)
    requires
        is_comparison(op),
        binary_shape(op, operand, lhs, rhs) is Ok,
    ensures
        binary_shape(op, operand, lhs, rhs)->Ok_0 == Shape::Value(TypeModel::Bool),
{
}

/// Division, remainder, ordering comparisons and right shifts are the only
/// integer operators whose instruction depends on signedness.
pub proof fn law_signedness(op: BinaryOp)
    ensures
        (spec_int_instruction(op, true) != spec_int_instruction(op, false)) <==> (op is Div
            || op is Rem || op is Lt || op is Le || op is Gt || op is Ge || op is Shr),
{
}

/// Every scalar type has an LLVM type; arrays and slices have none.
pub proof fn law_scalars_lower(t: TypeModel)
    ensures
        scalar_kind(t) is Some ==> llvm_repr(t) is Some,
        (t is Array || t is Slice) ==> llvm_repr(t) is None,
{
}


/// Byte `i + 1` of `w` is byte `i` of `w` shifted right by eight bits.
proof fn lemma_byte_of_shift(w: u128, i: nat)
    requires
        i < 16,
    ensures
        byte_of(w, i + 1) == byte_of(w >> 8u128, i),
{
    let k = i as u128;
    assert(((w >> (8 * (k + 1))) & 0xffu128) == (((w >> 8u128) >> (8 * k)) & 0xffu128)) by (bit_vector)
        requires
            k < 16,
    ;
    assert((8 * (i + 1)) as u128 == 8 * (k + 1));
    assert((8 * i) as u128 == 8 * k);
}

/// Powers of `256` are positive.
proof fn lemma_byte_scale_positive(n: nat)
    ensures
        byte_scale(n) > 0,
    decreases n,
{
    if n > 0 {
        lemma_byte_scale_positive((n - 1) as nat);
    }
}

/// The little-endian bytes of `w` denote `w` modulo `256` to the power of
/// their number.
proof fn lemma_le_bytes_denote(w: u128, n: nat)
    requires
        n <= 16,
    ensures
        little_endian(le_bytes(w, n)) == (w as nat) % byte_scale(n),
    decreases n,
{
    if n > 0 {
        let bytes = le_bytes(w, n);
        let shifted: u128 = w >> 8u128;
        lemma_le_bytes_denote(shifted, (n - 1) as nat);
        assert forall|i: int| 0 <= i < n - 1 implies bytes.drop_first()[i] == le_bytes(
            shifted,
            (n - 1) as nat,
        )[i] by {
            lemma_byte_of_shift(w, i as nat);
        }
        assert(bytes.drop_first() =~= le_bytes(shifted, (n - 1) as nat));
        assert(((w >> 0u128) & 0xffu128) == w % 256) by (bit_vector);
        assert(shifted == w / 256) by (bit_vector)
            requires
                shifted == w >> 8u128,
        ;
        assert(bytes[0] == byte_of(w, 0));
        lemma_byte_scale_positive((n - 1) as nat);
        vstd::arithmetic::div_mod::lemma_mod_breakdown(w as int, 256, byte_scale((n - 1) as nat) as int);
    }
}

/// Writing a scalar into memory and reading it back at its own type gives
/// it back.
pub proof fn law_bytes_round_trip(v: Value, t: TypeInfo)
    requires
        crate::bytes::byte_width(v) is Some,
        own_type(v) == Some(t) || (v is Bool && t is Bool) || (v is F32 && t is F32) || (v is F64
            && t is F64),
    ensures
        crate::bytes::type_width(t) == crate::bytes::byte_width(v),
        value_of_bits(
            little_endian(le_bytes(bit_pattern(v), crate::bytes::byte_width(v)->0)) as u128,
            t,
        ) == Some(v),
{
    let n = crate::bytes::byte_width(v)->0;
    let w = bit_pattern(v);
    lemma_le_bytes_denote(w, n);
    reveal_with_fuel(byte_scale, 17);
    let d = little_endian(le_bytes(w, n));
    assert(d == (w as nat) % byte_scale(n));
    match v {
        Value::I8(x) => {
            assert(byte_scale(1) == 256);
            assert(w == x as u128);
            assert((((x as u128) % 256) as i8) == x) by (bit_vector);
            assert(d as u128 == (x as u128) % 256);
        },
        Value::I16(x) => {
            assert(byte_scale(2) == 0x10000);
            assert(w == x as u128);
            assert((((x as u128) % 0x10000) as i16) == x) by (bit_vector);
            assert(d as u128 == (x as u128) % 0x10000);
        },
        Value::I32(x) => {
            assert(byte_scale(4) == 0x1_0000_0000);
            assert(w == x as u128);
            assert((((x as u128) % 0x1_0000_0000) as i32) == x) by (bit_vector);
            assert(d as u128 == (x as u128) % 0x1_0000_0000);
        },
        Value::I64(x) => {
            assert(byte_scale(8) == 0x1_0000_0000_0000_0000);
            assert(w == x as u128);
            assert((((x as u128) % 0x1_0000_0000_0000_0000) as i64) == x) by (bit_vector);
            assert(d as u128 == (x as u128) % 0x1_0000_0000_0000_0000);
        },
        Value::I128(x) => {
            assert(byte_scale(16) == 0x1_0000_0000_0000_0000_0000_0000_0000_0000);
            assert(w == x as u128);
            vstd::arithmetic::div_mod::lemma_small_mod(w as nat, byte_scale(16));
            assert(((x as u128) as i128) == x) by (bit_vector);
        },
        Value::U8(x) => {
            assert(byte_scale(1) == 256);
            vstd::arithmetic::div_mod::lemma_small_mod(x as nat, 256);
            assert(((x as u128) as u8) == x) by (bit_vector);
        },
        Value::U16(x) => {
            assert(byte_scale(2) == 0x10000);
            vstd::arithmetic::div_mod::lemma_small_mod(x as nat, 0x10000);
            assert(((x as u128) as u16) == x) by (bit_vector);
        },
        Value::U32(x) => {
            assert(byte_scale(4) == 0x1_0000_0000);
            vstd::arithmetic::div_mod::lemma_small_mod(x as nat, 0x1_0000_0000);
            assert(((x as u128) as u32) == x) by (bit_vector);
        },
        Value::U64(x) => {
            assert(byte_scale(8) == 0x1_0000_0000_0000_0000);
            vstd::arithmetic::div_mod::lemma_small_mod(x as nat, 0x1_0000_0000_0000_0000);
            assert(((x as u128) as u64) == x) by (bit_vector);
        },
        Value::U128(x) => {
            assert(byte_scale(16) == 0x1_0000_0000_0000_0000_0000_0000_0000_0000);
            vstd::arithmetic::div_mod::lemma_small_mod(x as nat, byte_scale(16));
        },
        Value::Usize(x) => {
            assert(byte_scale(8) == 0x1_0000_0000_0000_0000);
            vstd::arithmetic::div_mod::lemma_small_mod(x as nat, 0x1_0000_0000_0000_0000);
            assert(((x as u128) as usize) == x) by (bit_vector);
        },
        Value::Bool(b) => {
            assert(byte_scale(1) == 256);
            vstd::arithmetic::div_mod::lemma_small_mod(w as nat, 256);
        },
        Value::F32(bits) => {
            assert(byte_scale(4) == 0x1_0000_0000);
            vstd::arithmetic::div_mod::lemma_small_mod(bits as nat, 0x1_0000_0000);
            assert(((bits as u128) as u32) == bits) by (bit_vector);
        },
        Value::F64(bits) => {
            assert(byte_scale(8) == 0x1_0000_0000_0000_0000);
            vstd::arithmetic::div_mod::lemma_small_mod(bits as nat, 0x1_0000_0000_0000_0000);
            assert(((bits as u128) as u64) == bits) by (bit_vector);
        },
        Value::Array(_) => {},
    }
}


/// A block that finishes with some fuel finishes the same way with more.
proof fn lemma_more_fuel_block(
    captures: Seq<Val>,
    arguments: nat,
    env: Seq<Val>,
    block: Block,
    fuel: nat,
    more: nat,
)
    requires
        fuel <= more,
        spec_run_block(captures, arguments, env, block, fuel) is Ok,
    ensures
        spec_run_block(captures, arguments, env, block, more) == spec_run_block(
            captures,
            arguments,
            env,
            block,
            fuel,
        ),
    decreases fuel, block,
{
    assert(decreases_to!(block => block.statements));
    assert(decreases_to!(block.statements => block.statements@));
    lemma_more_fuel_statements(captures, arguments, env, block.statements@, fuel, more);
}

/// Statements that finish with some fuel finish the same way with more.
proof fn lemma_more_fuel_statements(
    captures: Seq<Val>,
    arguments: nat,
    env: Seq<Val>,
    statements: Seq<Statement>,
    fuel: nat,
    more: nat,
)
    requires
        fuel <= more,
        spec_run_statements(captures, arguments, env, statements, fuel) is Ok,
    ensures
        spec_run_statements(captures, arguments, env, statements, more) == spec_run_statements(
            captures,
            arguments,
            env,
            statements,
            fuel,
        ),
    decreases fuel, statements,
{
    if statements.len() > 0 {
        lemma_more_fuel_statement(captures, arguments, env, statements[0], fuel, more);
        let after = spec_run_statement(captures, arguments, env, statements[0], fuel)->Ok_0;
        lemma_more_fuel_statements(
            captures,
            arguments,
            after,
            statements.subrange(1, statements.len() as int),
            fuel,
            more,
        );
    }
}

/// A statement that finishes with some fuel finishes the same way with more.
proof fn lemma_more_fuel_statement(
    captures: Seq<Val>,
    arguments: nat,
    env: Seq<Val>,
    statement: Statement,
    fuel: nat,
    more: nat,
)
    requires
        fuel <= more,
        spec_run_statement(captures, arguments, env, statement, fuel) is Ok,
    ensures
        spec_run_statement(captures, arguments, env, statement, more) == spec_run_statement(
            captures,
            arguments,
            env,
            statement,
            fuel,
        ),
    decreases fuel, statement,
{
    match statement {
        Statement::While { condition, body } => {
            lemma_more_fuel_while(captures, arguments, env, condition, body, fuel, more);
        },
        Statement::For { local, start, end, inclusive, body, .. } => {
            let first = spec_eval(captures, env, start)->Ok_0;
            let last = spec_eval(captures, env, end)->Ok_0;
            lemma_more_fuel_for(captures, arguments, env, first, last, inclusive, body, fuel, more);
        },
        _ => {},
    }
}

/// A `while` loop that finishes with some fuel finishes the same way with
/// more.
proof fn lemma_more_fuel_while(
    captures: Seq<Val>,
    arguments: nat,
    env: Seq<Val>,
    condition: Expr,
    body: Block,
    fuel: nat,
    more: nat,
)
    requires
        fuel <= more,
        spec_run_while(captures, arguments, env, condition, body, fuel) is Ok,
    ensures
        spec_run_while(captures, arguments, env, condition, body, more) == spec_run_while(
            captures,
            arguments,
            env,
            condition,
            body,
            fuel,
        ),
    decreases fuel, body,
{
    if let Ok(Val::Scalar(Value::Bool(true))) = spec_eval(captures, env, condition) {
        lemma_more_fuel_block(captures, arguments, env, body, (fuel - 1) as nat, (more - 1) as nat);
        let after = spec_run_block(captures, arguments, env, body, (fuel - 1) as nat)->Ok_0.0;
        lemma_more_fuel_while(
            captures,
            arguments,
            after,
            condition,
            body,
            (fuel - 1) as nat,
            (more - 1) as nat,
        );
    }
}

/// A `for` loop that finishes with some fuel finishes the same way with
/// more.
proof fn lemma_more_fuel_for(
    captures: Seq<Val>,
    arguments: nat,
    env: Seq<Val>,
    counter: Val,
    end: Val,
    inclusive: bool,
    body: Block,
    fuel: nat,
    more: nat,
)
    requires
        fuel <= more,
        spec_run_for(captures, arguments, env, counter, end, inclusive, body, fuel) is Ok,
    ensures
        spec_run_for(captures, arguments, env, counter, end, inclusive, body, more) == spec_run_for(
            captures,
            arguments,
            env,
            counter,
            end,
            inclusive,
            body,
            fuel,
        ),
    decreases fuel, body,
{
    if let Ok(true) = crate::program::for_continues(counter, end, inclusive) {
        lemma_more_fuel_block(
            captures,
            arguments,
            env.push(counter),
            body,
            (fuel - 1) as nat,
            (more - 1) as nat,
        );
        let after = spec_run_block(
            captures,
            arguments,
            env.push(counter),
            body,
            (fuel - 1) as nat,
        )->Ok_0.0;
        let rest = after.take(env.len() as int);
        if let Ok(next) = crate::program::successor(counter) {
            if crate::interp::apply_binary(BinaryOp::Eq, counter, end) != Ok::<Val, EvalError>(
                Val::Scalar(Value::Bool(true)),
            ) {
                lemma_more_fuel_for(
                    captures,
                    arguments,
                    rest,
                    next,
                    end,
                    inclusive,
                    body,
                    (fuel - 1) as nat,
                    (more - 1) as nat,
                );
            }
        }
    }
}

/// Loops are bounded by fuel, and fuel only cuts runs short: a call that
/// finishes with some fuel gives the same result and arguments with more.
pub proof fn law_more_fuel(
    closure: Closure,
    captures: Seq<Val>,
    args: Seq<Val>,
    fuel: nat,
    more: nat,
)
    requires
        fuel <= more,
        spec_call(closure, captures, args, fuel) is Ok,
    ensures
        spec_call(closure, captures, args, more) == spec_call(closure, captures, args, fuel),
{
    if captures.len() == closure.captures@.len() && args.len() == closure.arguments@.len() {
        lemma_more_fuel_block(captures, args.len(), args, closure.body, fuel, more);
    }
}

} // verus!
