//! Laws of names and numerals: each intrinsic and each integer type is
//! found under its own name, an integer literal denotes the number its
//! digits spell, names in a closure resolve to distinct slots, decimal
//! notation reads back, and the names the emitter makes up are fresh.
use vstd::prelude::*;
use crate::decimal::{digit_char, spec_decimal};
use crate::expr::{Expr, Intrinsic};
use crate::mlir::value_name;
use crate::frontend::{
    ClosureArgument, FrontendError, LocalVariable, count_kind, first_named, last_named,
    spec_lower_path, digits_value, integer_type_named, is_digit, literal_type, spec_integer_literal,
    spec_intrinsic_for_name,
};
use crate::scalar_laws::{in_type_range, integer_type, integer_value, is_integer_type};
use crate::types::TypeInfo;
use crate::typing::intrinsic_arity;
use crate::value::Value;

verus! {

/// The name by which a closure calls an intrinsic: the name of the
/// floating-point method it stands for.
pub open spec fn intrinsic_spelling(i: Intrinsic) -> Seq<char> {
    match i {
        Intrinsic::Sqrt => "sqrt"@,
        Intrinsic::Abs => "abs"@,
        Intrinsic::Min => "min"@,
        Intrinsic::Max => "max"@,
        Intrinsic::Floor => "floor"@,
        Intrinsic::Ceil => "ceil"@,
        Intrinsic::Round => "round"@,
        Intrinsic::Sin => "sin"@,
        Intrinsic::Cos => "cos"@,
        Intrinsic::Tan => "tan"@,
        Intrinsic::Exp => "exp"@,
        Intrinsic::Log => "log"@,
        Intrinsic::Pow => "pow"@,
    }
}

/// Each intrinsic is found under its own name, with its own number of
/// arguments; and a name that is found at all is the name of the intrinsic
/// found. So `floor` calls `Floor` and not `Ceil`, and two different names
/// never call one intrinsic.
pub proof fn law_intrinsic_by_name(i: Intrinsic, name: Seq<char>)
    ensures
        spec_intrinsic_for_name(intrinsic_spelling(i)) == Some((i, intrinsic_arity(i) as usize)),
        spec_intrinsic_for_name(name) matches Some((j, n)) ==> name == intrinsic_spelling(j)
            && n == intrinsic_arity(j),
{
    reveal_strlit("sqrt");
    reveal_strlit("abs");
    reveal_strlit("min");
    reveal_strlit("max");
    reveal_strlit("floor");
    reveal_strlit("ceil");
    reveal_strlit("round");
    reveal_strlit("sin");
    reveal_strlit("cos");
    reveal_strlit("tan");
    reveal_strlit("exp");
    reveal_strlit("log");
    reveal_strlit("pow");
    match i {
        Intrinsic::Sqrt => {
            assert(intrinsic_arity(i) as usize == 1usize);
        },
        Intrinsic::Abs => {
            assert("abs"@.len() != "sqrt"@.len());
            assert(intrinsic_arity(i) as usize == 1usize);
        },
        Intrinsic::Min => {
            assert("min"@.len() != "sqrt"@.len());
            assert("min"@[0] != "abs"@[0]);
            assert(intrinsic_arity(i) as usize == 2usize);
        },
        Intrinsic::Max => {
            assert("max"@.len() != "sqrt"@.len());
            assert("max"@[0] != "abs"@[0]);
            assert("max"@[1] != "min"@[1]);
            assert(intrinsic_arity(i) as usize == 2usize);
        },
        Intrinsic::Floor => {
            assert("floor"@.len() != "sqrt"@.len());
            assert("floor"@.len() != "abs"@.len());
            assert("floor"@.len() != "min"@.len());
            assert("floor"@.len() != "max"@.len());
            assert(intrinsic_arity(i) as usize == 1usize);
        },
        Intrinsic::Ceil => {
            assert("ceil"@[0] != "sqrt"@[0]);
            assert("ceil"@.len() != "abs"@.len());
            assert("ceil"@.len() != "min"@.len());
            assert("ceil"@.len() != "max"@.len());
            assert("ceil"@.len() != "floor"@.len());
            assert(intrinsic_arity(i) as usize == 1usize);
        },
        Intrinsic::Round => {
            assert("round"@.len() != "sqrt"@.len());
            assert("round"@.len() != "abs"@.len());
            assert("round"@.len() != "min"@.len());
            assert("round"@.len() != "max"@.len());
            assert("round"@[0] != "floor"@[0]);
            assert("round"@.len() != "ceil"@.len());
            assert(intrinsic_arity(i) as usize == 1usize);
        },
        Intrinsic::Sin => {
            assert("sin"@.len() != "sqrt"@.len());
            assert("sin"@[0] != "abs"@[0]);
            assert("sin"@[0] != "min"@[0]);
            assert("sin"@[0] != "max"@[0]);
            assert("sin"@.len() != "floor"@.len());
            assert("sin"@.len() != "ceil"@.len());
            assert("sin"@.len() != "round"@.len());
            assert(intrinsic_arity(i) as usize == 1usize);
        },
        Intrinsic::Cos => {
            assert("cos"@.len() != "sqrt"@.len());
            assert("cos"@[0] != "abs"@[0]);
            assert("cos"@[0] != "min"@[0]);
            assert("cos"@[0] != "max"@[0]);
            assert("cos"@.len() != "floor"@.len());
            assert("cos"@.len() != "ceil"@.len());
            assert("cos"@.len() != "round"@.len());
            assert("cos"@[0] != "sin"@[0]);
            assert(intrinsic_arity(i) as usize == 1usize);
        },
        Intrinsic::Tan => {
            assert("tan"@.len() != "sqrt"@.len());
            assert("tan"@[0] != "abs"@[0]);
            assert("tan"@[0] != "min"@[0]);
            assert("tan"@[0] != "max"@[0]);
            assert("tan"@.len() != "floor"@.len());
            assert("tan"@.len() != "ceil"@.len());
            assert("tan"@.len() != "round"@.len());
            assert("tan"@[0] != "sin"@[0]);
            assert("tan"@[0] != "cos"@[0]);
            assert(intrinsic_arity(i) as usize == 1usize);
        },
        Intrinsic::Exp => {
            assert("exp"@.len() != "sqrt"@.len());
            assert("exp"@[0] != "abs"@[0]);
            assert("exp"@[0] != "min"@[0]);
            assert("exp"@[0] != "max"@[0]);
            assert("exp"@.len() != "floor"@.len());
            assert("exp"@.len() != "ceil"@.len());
            assert("exp"@.len() != "round"@.len());
            assert("exp"@[0] != "sin"@[0]);
            assert("exp"@[0] != "cos"@[0]);
            assert("exp"@[0] != "tan"@[0]);
            assert(intrinsic_arity(i) as usize == 1usize);
        },
        Intrinsic::Log => {
            assert("log"@.len() != "sqrt"@.len());
            assert("log"@[0] != "abs"@[0]);
            assert("log"@[0] != "min"@[0]);
            assert("log"@[0] != "max"@[0]);
            assert("log"@.len() != "floor"@.len());
            assert("log"@.len() != "ceil"@.len());
            assert("log"@.len() != "round"@.len());
            assert("log"@[0] != "sin"@[0]);
            assert("log"@[0] != "cos"@[0]);
            assert("log"@[0] != "tan"@[0]);
            assert("log"@[0] != "exp"@[0]);
            assert(intrinsic_arity(i) as usize == 1usize);
        },
        Intrinsic::Pow => {
            assert("pow"@.len() != "sqrt"@.len());
            assert("pow"@[0] != "abs"@[0]);
            assert("pow"@[0] != "min"@[0]);
            assert("pow"@[0] != "max"@[0]);
            assert("pow"@.len() != "floor"@.len());
            assert("pow"@.len() != "ceil"@.len());
            assert("pow"@.len() != "round"@.len());
            assert("pow"@[0] != "sin"@[0]);
            assert("pow"@[0] != "cos"@[0]);
            assert("pow"@[0] != "tan"@[0]);
            assert("pow"@[0] != "exp"@[0]);
            assert("pow"@[0] != "log"@[0]);
            assert(intrinsic_arity(i) as usize == 2usize);
        },
    }
}

/// The name of an integer type in Rust source.
pub open spec fn type_spelling(t: TypeInfo) -> Seq<char> {
    match t {
        TypeInfo::I8 => "i8"@,
        TypeInfo::I16 => "i16"@,
        TypeInfo::I32 => "i32"@,
        TypeInfo::I64 => "i64"@,
        TypeInfo::I128 => "i128"@,
        TypeInfo::U8 => "u8"@,
        TypeInfo::U16 => "u16"@,
        TypeInfo::U32 => "u32"@,
        TypeInfo::U64 => "u64"@,
        TypeInfo::U128 => "u128"@,
        TypeInfo::Usize => "usize"@,
        _ => Seq::empty(),
    }
}

/// Each integer type is named by its own name, and a name that names an
/// integer type at all is that type's name: so `u8` is never `u16`.
pub proof fn law_type_names(t: TypeInfo, name: Seq<char>)
    ensures
        is_integer_type(t) ==> integer_type_named(type_spelling(t)) == Some(t),
        integer_type_named(name) matches Some(u) ==> is_integer_type(u) && name == type_spelling(u),
{
    reveal_strlit("i8");
    reveal_strlit("i16");
    reveal_strlit("i32");
    reveal_strlit("i64");
    reveal_strlit("i128");
    reveal_strlit("u8");
    reveal_strlit("u16");
    reveal_strlit("u32");
    reveal_strlit("u64");
    reveal_strlit("u128");
    reveal_strlit("usize");
    match t {
        TypeInfo::I8 => {},
        TypeInfo::I16 => {
            assert("i16"@.len() != "i8"@.len());
        },
        TypeInfo::I32 => {
            assert("i32"@.len() != "i8"@.len());
            assert("i32"@[1] != "i16"@[1]);
        },
        TypeInfo::I64 => {
            assert("i64"@.len() != "i8"@.len());
            assert("i64"@[1] != "i16"@[1]);
            assert("i64"@[1] != "i32"@[1]);
        },
        TypeInfo::I128 => {
            assert("i128"@.len() != "i8"@.len());
            assert("i128"@.len() != "i16"@.len());
            assert("i128"@.len() != "i32"@.len());
            assert("i128"@.len() != "i64"@.len());
        },
        TypeInfo::U8 => {
            assert("u8"@[0] != "i8"@[0]);
            assert("u8"@.len() != "i16"@.len());
            assert("u8"@.len() != "i32"@.len());
            assert("u8"@.len() != "i64"@.len());
            assert("u8"@.len() != "i128"@.len());
        },
        TypeInfo::U16 => {
            assert("u16"@.len() != "i8"@.len());
            assert("u16"@[0] != "i16"@[0]);
            assert("u16"@[0] != "i32"@[0]);
            assert("u16"@[0] != "i64"@[0]);
            assert("u16"@.len() != "i128"@.len());
            assert("u16"@.len() != "u8"@.len());
        },
        TypeInfo::U32 => {
            assert("u32"@.len() != "i8"@.len());
            assert("u32"@[0] != "i16"@[0]);
            assert("u32"@[0] != "i32"@[0]);
            assert("u32"@[0] != "i64"@[0]);
            assert("u32"@.len() != "i128"@.len());
            assert("u32"@.len() != "u8"@.len());
            assert("u32"@[1] != "u16"@[1]);
        },
        TypeInfo::U64 => {
            assert("u64"@.len() != "i8"@.len());
            assert("u64"@[0] != "i16"@[0]);
            assert("u64"@[0] != "i32"@[0]);
            assert("u64"@[0] != "i64"@[0]);
            assert("u64"@.len() != "i128"@.len());
            assert("u64"@.len() != "u8"@.len());
            assert("u64"@[1] != "u16"@[1]);
            assert("u64"@[1] != "u32"@[1]);
        },
        TypeInfo::U128 => {
            assert("u128"@.len() != "i8"@.len());
            assert("u128"@.len() != "i16"@.len());
            assert("u128"@.len() != "i32"@.len());
            assert("u128"@.len() != "i64"@.len());
            assert("u128"@[0] != "i128"@[0]);
            assert("u128"@.len() != "u8"@.len());
            assert("u128"@.len() != "u16"@.len());
            assert("u128"@.len() != "u32"@.len());
            assert("u128"@.len() != "u64"@.len());
        },
        TypeInfo::Usize => {
            assert("usize"@.len() != "i8"@.len());
            assert("usize"@.len() != "i16"@.len());
            assert("usize"@.len() != "i32"@.len());
            assert("usize"@.len() != "i64"@.len());
            assert("usize"@.len() != "i128"@.len());
            assert("usize"@.len() != "u8"@.len());
            assert("usize"@.len() != "u16"@.len());
            assert("usize"@.len() != "u32"@.len());
            assert("usize"@.len() != "u64"@.len());
            assert("usize"@.len() != "u128"@.len());
        },
        _ => {},
    }
}

/// An integer literal of decimal digits, whose type the suffix or the
/// context gives, denotes exactly the number its digits spell, at that type,
/// when the number is a value of the type; otherwise it is out of range.
pub proof fn law_integer_literal(digits: Seq<char>, suffix: Seq<char>, expected: Option<Seq<char>>)
    requires
        literal_type(suffix, expected) is Ok,
        digits.len() > 0,
        forall|i: int| 0 <= i < digits.len() ==> is_digit(#[trigger] digits[i]),
    ensures
        in_type_range(literal_type(suffix, expected)->Ok_0, digits_value(digits) as int)
            ==> (spec_integer_literal(digits, suffix, expected) matches Ok(v) && integer_type(v)
            == Some(literal_type(suffix, expected)->Ok_0) && integer_value(v) == digits_value(
            digits,
        )),
        !in_type_range(literal_type(suffix, expected)->Ok_0, digits_value(digits) as int)
            ==> spec_integer_literal(digits, suffix, expected) == Err::<Value, FrontendError>(
            FrontendError::LiteralOutOfRange,
        ),
{
    let t = literal_type(suffix, expected)->Ok_0;
    law_type_names(t, suffix);
    if expected is Some {
        law_type_names(t, expected->0);
    }
    assert(is_integer_type(t));
    assert(usize::MAX == 0xffff_ffff || usize::MAX == 0xffff_ffff_ffff_ffff);
}

/// Counting arguments of a kind does not go down as the end moves right, and
/// goes up past an argument of that kind.
proof fn lemma_count_kind_grows(arguments: Seq<ClosureArgument>, i: int, j: int, capture: bool)
    requires
        0 <= i <= j <= arguments.len(),
    ensures
        count_kind(arguments, i, capture) <= count_kind(arguments, j, capture),
        i < j && arguments[i].capture == capture ==> count_kind(arguments, i, capture) < count_kind(
            arguments,
            j,
            capture,
        ),
        count_kind(arguments, j, capture) <= j,
    decreases j,
{
    if j > 0 {
        if i < j {
            lemma_count_kind_grows(arguments, i, j - 1, capture);
        } else {
            lemma_count_kind_grows(arguments, j - 1, j - 1, capture);
        }
    }
}

/// The first argument so named is an argument of that name.
proof fn lemma_first_named_found(arguments: Seq<ClosureArgument>, name: Seq<char>)
    ensures
        first_named(arguments, name) matches Some(i) ==> 0 <= i < arguments.len()
            && arguments[i].name@ == name,
    decreases arguments.len(),
{
    if arguments.len() > 0 {
        lemma_first_named_found(arguments.drop_first(), name);
    }
}

/// The last local so named is a local of that name.
proof fn lemma_last_named_found(locals: Seq<LocalVariable>, name: Seq<char>)
    ensures
        last_named(locals, name) matches Some(j) ==> 0 <= j < locals.len() && locals[j].name@ == name,
    decreases locals.len(),
{
    if locals.len() > 0 {
        lemma_last_named_found(locals.drop_last(), name);
    }
}

/// Two different names that both resolve refer to different slots: plain
/// arguments are numbered apart among the plain arguments, captures among
/// the captures, and locals (whose positions differ) after all the plain
/// arguments.
pub proof fn law_names_resolve_apart(
    arguments: Seq<ClosureArgument>,
    locals: Seq<LocalVariable>,
    first: Seq<char>,
    second: Seq<char>,
)
    requires
        first != second,
        arguments.len() <= usize::MAX,
        forall|j: int, k: int|
            0 <= j < k < locals.len() ==> #[trigger] locals[j].index != #[trigger] locals[k].index,
        forall|j: int| 0 <= j < locals.len() ==> arguments.len() + #[trigger] locals[j].index <= usize::MAX,
        spec_lower_path(first, arguments, locals) is Some,
        spec_lower_path(second, arguments, locals) is Some,
    ensures
        spec_lower_path(first, arguments, locals) != spec_lower_path(second, arguments, locals),
{
    lemma_first_named_found(arguments, first);
    lemma_first_named_found(arguments, second);
    lemma_last_named_found(locals, first);
    lemma_last_named_found(locals, second);
    let n = arguments.len() as int;
    lemma_count_kind_grows(arguments, n, n, false);
    if first_named(arguments, first) is Some {
        let i = first_named(arguments, first)->0;
        lemma_count_kind_grows(arguments, i, n, false);
        lemma_count_kind_grows(arguments, i, n, true);
    }
    if first_named(arguments, second) is Some {
        let i = first_named(arguments, second)->0;
        lemma_count_kind_grows(arguments, i, n, false);
        lemma_count_kind_grows(arguments, i, n, true);
    }
    if first_named(arguments, first) is Some && first_named(arguments, second) is Some {
        let i1 = first_named(arguments, first)->0;
        let i2 = first_named(arguments, second)->0;
        if i1 < i2 {
            lemma_count_kind_grows(arguments, i1, i2, false);
            lemma_count_kind_grows(arguments, i1, i2, true);
        } else {
            lemma_count_kind_grows(arguments, i2, i1, false);
            lemma_count_kind_grows(arguments, i2, i1, true);
        }
    }
    if last_named(locals, first) is Some && last_named(locals, second) is Some {
        let j1 = last_named(locals, first)->0;
        let j2 = last_named(locals, second)->0;
        assert(j1 != j2);
        if j1 < j2 {
            assert(locals[j1].index != locals[j2].index);
        } else {
            assert(locals[j2].index != locals[j1].index);
        }
    }
}

/// Each decimal digit's character reads back as that digit.
proof fn lemma_digit_char(d: nat)
    requires
        d < 10,
    ensures
        is_digit(digit_char(d)),
        (digit_char(d) as int) - ('0' as int) == d,
{
}

/// The decimal notation of `n` is made of digits, has no leading zero
/// (unless it is `0` itself), and reads back as `n`.
pub proof fn law_decimal_reads_back(n: nat)
    ensures
        spec_decimal(n).len() > 0,
        forall|i: int| 0 <= i < spec_decimal(n).len() ==> is_digit(#[trigger] spec_decimal(n)[i]),
        n > 0 ==> spec_decimal(n)[0] != '0',
        digits_value(spec_decimal(n)) == n,
    decreases n,
{
    if n < 10 {
        lemma_digit_char(n);
        assert(spec_decimal(n).drop_last() =~= Seq::<char>::empty());
        assert(digits_value(Seq::<char>::empty()) == 0);
        assert(spec_decimal(n).last() == digit_char(n));
    } else {
        law_decimal_reads_back(n / 10);
        lemma_digit_char(n % 10);
        let s = spec_decimal(n / 10);
        assert(spec_decimal(n).drop_last() =~= s);
        assert forall|i: int| 0 <= i < spec_decimal(n).len() implies is_digit(
            #[trigger] spec_decimal(n)[i],
        ) by {
            if i < s.len() {
                assert(spec_decimal(n)[i] == s[i]);
            }
        }
        assert(spec_decimal(n)[0] == s[0]);
        assert(spec_decimal(n).last() == digit_char(n % 10));
        assert(digits_value(s) * 10 + (n % 10) == n);
    }
}

/// The names the MLIR emitter makes up from a counter are fresh: different
/// counts give different value names, and different block names under one
/// prefix.
pub proof fn law_fresh_names(prefix: Seq<char>, n: nat, m: nat)
    requires
        n != m,
    ensures
        value_name(n) != value_name(m),
        prefix + "_"@ + spec_decimal(n) != prefix + "_"@ + spec_decimal(m),
{
    law_decimal_reads_back(n);
    law_decimal_reads_back(m);
    let head = "%v"@;
    if value_name(n) == value_name(m) {
        assert(spec_decimal(n) =~= value_name(n).subrange(head.len() as int, value_name(n).len() as int));
        assert(spec_decimal(m) =~= value_name(m).subrange(head.len() as int, value_name(m).len() as int));
    }
    let p = prefix + "_"@;
    if p + spec_decimal(n) == p + spec_decimal(m) {
        assert(spec_decimal(n) =~= (p + spec_decimal(n)).subrange(p.len() as int, (p + spec_decimal(n)).len() as int));
        assert(spec_decimal(m) =~= (p + spec_decimal(m)).subrange(p.len() as int, (p + spec_decimal(m)).len() as int));
    }
}

/// A name that some local has is found among the locals.
proof fn lemma_last_named_exists(locals: Seq<LocalVariable>, name: Seq<char>, j: int)
    requires
        0 <= j < locals.len(),
        locals[j].name@ == name,
    ensures
        last_named(locals, name) is Some,
    decreases locals.len(),
{
    if locals.last().name@ != name {
        assert(locals.drop_last()[j] == locals[j]);
        lemma_last_named_exists(locals.drop_last(), name, j);
    }
}

/// A local shadows the arguments: a name that some local has refers to a
/// local slot, numbered after every plain argument, even where an argument
/// has the same name. A name that no local has refers to an argument's slot:
/// a plain argument's is below the number of plain arguments, a capture's
/// below the number of captures.
pub proof fn law_locals_shadow_arguments(
    arguments: Seq<ClosureArgument>,
    locals: Seq<LocalVariable>,
    name: Seq<char>,
)
    requires
        arguments.len() <= usize::MAX,
        forall|j: int| 0 <= j < locals.len() ==> arguments.len() + #[trigger] locals[j].index <= usize::MAX,
    ensures
        (exists|j: int| 0 <= j < locals.len() && #[trigger] locals[j].name@ == name) ==> (
        spec_lower_path(name, arguments, locals) matches Some(Expr::Argument(k)) && k
            >= count_kind(arguments, arguments.len() as int, false)),
        !(exists|j: int| 0 <= j < locals.len() && #[trigger] locals[j].name@ == name) ==> match spec_lower_path(
            name,
            arguments,
            locals,
        ) {
            Some(Expr::Argument(k)) => k < count_kind(arguments, arguments.len() as int, false),
            Some(Expr::Capture(k)) => k < count_kind(arguments, arguments.len() as int, true),
            None => first_named(arguments, name) is None,
            _ => false,
        },
{
    let n = arguments.len() as int;
    lemma_count_kind_grows(arguments, n, n, false);
    lemma_last_named_found(locals, name);
    lemma_first_named_found(arguments, name);
    if exists|j: int| 0 <= j < locals.len() && #[trigger] locals[j].name@ == name {
        let j = choose|j: int| 0 <= j < locals.len() && #[trigger] locals[j].name@ == name;
        lemma_last_named_exists(locals, name, j);
    } else {
        if last_named(locals, name) is Some {
            let j = last_named(locals, name)->0;
            assert(locals[j].name@ == name);
        }
        if first_named(arguments, name) is Some {
            let i = first_named(arguments, name)->0;
            lemma_count_kind_grows(arguments, i, n, false);
            lemma_count_kind_grows(arguments, i, n, true);
        }
    }
}

} // verus!
