//! The decisions that turn closure syntax into the IR: which intrinsic a
//! function name calls, which constant an integer literal denotes, and
//! which argument, capture or local a name refers to.
use vstd::prelude::*;
use crate::expr::{Expr, Intrinsic};
use crate::text::same_text;
use crate::types::TypeInfo;
use crate::value::Value;

verus! {

/// Why closure syntax has no IR.
#[derive(Debug, PartialEq, Eq)]
pub enum FrontendError {
    UnsupportedIntrinsic(String),
    IntrinsicArity { name: String, expected: usize },
    UnsupportedLiteral,
    UninferableLiteralType,
    InvalidDigits,
    LiteralOutOfRange,
    UnknownName(String),
    QualifiedIntrinsic,
}

/// The intrinsic a function name calls, and how many arguments it takes.
pub open spec fn spec_intrinsic_for_name(name: Seq<char>) -> Option<(Intrinsic, usize)> {
    if name == "sqrt"@ {
        Some((Intrinsic::Sqrt, 1))
    } else if name == "abs"@ {
        Some((Intrinsic::Abs, 1))
    } else if name == "min"@ {
        Some((Intrinsic::Min, 2))
    } else if name == "max"@ {
        Some((Intrinsic::Max, 2))
    } else if name == "floor"@ {
        Some((Intrinsic::Floor, 1))
    } else if name == "ceil"@ {
        Some((Intrinsic::Ceil, 1))
    } else if name == "round"@ {
        Some((Intrinsic::Round, 1))
    } else if name == "sin"@ {
        Some((Intrinsic::Sin, 1))
    } else if name == "cos"@ {
        Some((Intrinsic::Cos, 1))
    } else if name == "tan"@ {
        Some((Intrinsic::Tan, 1))
    } else if name == "exp"@ {
        Some((Intrinsic::Exp, 1))
    } else if name == "log"@ {
        Some((Intrinsic::Log, 1))
    } else if name == "pow"@ {
        Some((Intrinsic::Pow, 2))
    } else {
        None
    }
}

/// The intrinsic a function name calls, and how many arguments it takes.
pub fn intrinsic_for_name(name: &str) -> (r: Option<(Intrinsic, usize)>)
    ensures
        r == spec_intrinsic_for_name(name@),
{
    if same_text(name, "sqrt") {
        Some((Intrinsic::Sqrt, 1))
    } else if same_text(name, "abs") {
        Some((Intrinsic::Abs, 1))
    } else if same_text(name, "min") {
        Some((Intrinsic::Min, 2))
    } else if same_text(name, "max") {
        Some((Intrinsic::Max, 2))
    } else if same_text(name, "floor") {
        Some((Intrinsic::Floor, 1))
    } else if same_text(name, "ceil") {
        Some((Intrinsic::Ceil, 1))
    } else if same_text(name, "round") {
        Some((Intrinsic::Round, 1))
    } else if same_text(name, "sin") {
        Some((Intrinsic::Sin, 1))
    } else if same_text(name, "cos") {
        Some((Intrinsic::Cos, 1))
    } else if same_text(name, "tan") {
        Some((Intrinsic::Tan, 1))
    } else if same_text(name, "exp") {
        Some((Intrinsic::Exp, 1))
    } else if same_text(name, "log") {
        Some((Intrinsic::Log, 1))
    } else if same_text(name, "pow") {
        Some((Intrinsic::Pow, 2))
    } else {
        None
    }
}

/// The name of the intrinsic that a call's path, given by its segments,
/// names: intrinsic names are unqualified, a single segment.
pub fn intrinsic_name(segments: &[String]) -> (r: Result<String, FrontendError>)
    ensures
        segments@.len() == 1 ==> (r matches Ok(name) && name@ == segments@[0]@),
        segments@.len() != 1 ==> r == Err::<String, FrontendError>(FrontendError::QualifiedIntrinsic),
{
    if segments.len() != 1 {
        return Err(FrontendError::QualifiedIntrinsic);
    }
    Ok(segments[0].as_str().to_string())
}

/// The intrinsic that a call of the function `name` with `argument_count`
/// arguments lowers to: the name must be an intrinsic's, and the count its
/// arity.
pub fn lower_call(name: &str, argument_count: usize) -> (r: Result<Intrinsic, FrontendError>)
    ensures
        match spec_intrinsic_for_name(name@) {
            None => r matches Err(FrontendError::UnsupportedIntrinsic(s)) && s@ == name@,
            Some((intrinsic, arity)) => if argument_count == arity {
                r == Ok::<Intrinsic, FrontendError>(intrinsic)
            } else {
                r matches Err(FrontendError::IntrinsicArity { name: s, expected }) && s@ == name@
                    && expected == arity
            },
        },
{
    match intrinsic_for_name(name) {
        None => Err(FrontendError::UnsupportedIntrinsic(name.to_owned())),
        Some((intrinsic, arity)) => if argument_count == arity {
            Ok(intrinsic)
        } else {
            Err(FrontendError::IntrinsicArity { name: name.to_owned(), expected: arity })
        },
    }
}

/// The integer type a type name denotes.
pub open spec fn integer_type_named(name: Seq<char>) -> Option<TypeInfo> {
    if name == "i8"@ {
        Some(TypeInfo::I8)
    } else if name == "i16"@ {
        Some(TypeInfo::I16)
    } else if name == "i32"@ {
        Some(TypeInfo::I32)
    } else if name == "i64"@ {
        Some(TypeInfo::I64)
    } else if name == "i128"@ {
        Some(TypeInfo::I128)
    } else if name == "u8"@ {
        Some(TypeInfo::U8)
    } else if name == "u16"@ {
        Some(TypeInfo::U16)
    } else if name == "u32"@ {
        Some(TypeInfo::U32)
    } else if name == "u64"@ {
        Some(TypeInfo::U64)
    } else if name == "u128"@ {
        Some(TypeInfo::U128)
    } else if name == "usize"@ {
        Some(TypeInfo::Usize)
    } else {
        None
    }
}

/// The integer type a type name denotes.
pub fn integer_type_of_name(name: &str) -> (r: Option<TypeInfo>)
    ensures
        r == integer_type_named(name@),
{
    if same_text(name, "i8") {
        Some(TypeInfo::I8)
    } else if same_text(name, "i16") {
        Some(TypeInfo::I16)
    } else if same_text(name, "i32") {
        Some(TypeInfo::I32)
    } else if same_text(name, "i64") {
        Some(TypeInfo::I64)
    } else if same_text(name, "i128") {
        Some(TypeInfo::I128)
    } else if same_text(name, "u8") {
        Some(TypeInfo::U8)
    } else if same_text(name, "u16") {
        Some(TypeInfo::U16)
    } else if same_text(name, "u32") {
        Some(TypeInfo::U32)
    } else if same_text(name, "u64") {
        Some(TypeInfo::U64)
    } else if same_text(name, "u128") {
        Some(TypeInfo::U128)
    } else if same_text(name, "usize") {
        Some(TypeInfo::Usize)
    } else {
        None
    }
}

/// The type of an integer literal with suffix `suffix`, where the context
/// expects a value of the type named `expected`: the suffix decides, then the
/// expected type, and a literal without either is an `i32`.
pub open spec fn literal_type(suffix: Seq<char>, expected: Option<Seq<char>>) -> Result<TypeInfo, FrontendError> {
    if suffix.len() == 0 {
        match expected {
            Some(name) => match integer_type_named(name) {
                Some(t) => Ok(t),
                None => Err(FrontendError::UninferableLiteralType),
            },
            None => Ok(TypeInfo::I32),
        }
    } else {
        match integer_type_named(suffix) {
            Some(t) => Ok(t),
            None => Err(FrontendError::UnsupportedLiteral),
        }
    }
}

/// Whether `c` is a decimal digit.
pub open spec fn is_digit(c: char) -> bool {
    '0' <= c <= '9'
}

/// The number that decimal digits denote.
pub open spec fn digits_value(digits: Seq<char>) -> nat
    decreases digits.len(),
{
    if digits.len() == 0 {
        0
    } else {
        (digits_value(digits.drop_last()) * 10 + ((digits.last() as int) - ('0' as int))) as nat
    }
}

/// The largest value of an integer type.
pub open spec fn type_max(t: TypeInfo) -> nat {
    match t {
        TypeInfo::I8 => 0x7f,
        TypeInfo::I16 => 0x7fff,
        TypeInfo::I32 => 0x7fff_ffff,
        TypeInfo::I64 => 0x7fff_ffff_ffff_ffff,
        TypeInfo::I128 => 0x7fff_ffff_ffff_ffff_ffff_ffff_ffff_ffff,
        TypeInfo::U8 => 0xff,
        TypeInfo::U16 => 0xffff,
        TypeInfo::U32 => 0xffff_ffff,
        TypeInfo::U64 => 0xffff_ffff_ffff_ffff,
        TypeInfo::U128 => 0xffff_ffff_ffff_ffff_ffff_ffff_ffff_ffff,
        TypeInfo::Usize => usize::MAX as nat,
        _ => 0,
    }
}

/// The constant of integer type `t` whose value is `n`.
pub open spec fn integer_constant(n: nat, t: TypeInfo) -> Value {
    match t {
        TypeInfo::I8 => Value::I8(n as i8),
        TypeInfo::I16 => Value::I16(n as i16),
        TypeInfo::I32 => Value::I32(n as i32),
        TypeInfo::I64 => Value::I64(n as i64),
        TypeInfo::I128 => Value::I128(n as i128),
        TypeInfo::U8 => Value::U8(n as u8),
        TypeInfo::U16 => Value::U16(n as u16),
        TypeInfo::U32 => Value::U32(n as u32),
        TypeInfo::U64 => Value::U64(n as u64),
        TypeInfo::U128 => Value::U128(n as u128),
        _ => Value::Usize(n as usize),
    }
}

/// The constant an integer literal denotes: its type by [`literal_type`],
/// its digits decimal, and its value within the range of its type.
pub open spec fn spec_integer_literal(digits: Seq<char>, suffix: Seq<char>, expected: Option<Seq<char>>) -> Result<Value, FrontendError> {
    match literal_type(suffix, expected) {
        Err(e) => Err(e),
        Ok(t) => if digits.len() == 0 || exists|i: int| 0 <= i < digits.len() && !is_digit(#[trigger] digits[i]) {
            Err(FrontendError::InvalidDigits)
        } else if digits_value(digits) > type_max(t) {
            Err(FrontendError::LiteralOutOfRange)
        } else {
            Ok(integer_constant(digits_value(digits), t))
        },
    }
}

/// The model of an optional name.
pub open spec fn optional_text(name: Option<&str>) -> Option<Seq<char>> {
    match name {
        Some(n) => Some(n@),
        None => None,
    }
}

/// The constant the integer literal with decimal `digits` and `suffix`
/// denotes where the context expects the type named `expected`.
pub fn lower_integer_literal(digits: &str, suffix: &str, expected: Option<&str>) -> (r: Result<Value, FrontendError>)
    ensures
        r == spec_integer_literal(digits@, suffix@, optional_text(expected)),
{
    let target = if suffix.unicode_len() == 0 {
        match expected {
            Some(name) => match integer_type_of_name(name) {
                Some(t) => t,
                None => {
                    return Err(FrontendError::UninferableLiteralType);
                },
            },
            None => TypeInfo::I32,
        }
    } else {
        match integer_type_of_name(suffix) {
            Some(t) => t,
            None => {
                return Err(FrontendError::UnsupportedLiteral);
            },
        }
    };
    let n = digits.unicode_len();
    if n == 0 {
        return Err(FrontendError::InvalidDigits);
    }
    let mut i: usize = 0;
    while i < n
        invariant
            0 <= i <= n,
            n == digits@.len(),
            literal_type(suffix@, optional_text(expected)) == Ok::<TypeInfo, FrontendError>(target),
            forall|k: int| 0 <= k < i ==> is_digit(#[trigger] digits@[k]),
        decreases n - i,
    {
        let c = digits.get_char(i);
        if !('0' <= c && c <= '9') {
            assert(!is_digit(digits@[i as int]));
            return Err(FrontendError::InvalidDigits);
        }
        i = i + 1;
    }
    let max: u128 = match target {
        TypeInfo::I8 => 0x7f,
        TypeInfo::I16 => 0x7fff,
        TypeInfo::I32 => 0x7fff_ffff,
        TypeInfo::I64 => 0x7fff_ffff_ffff_ffff,
        TypeInfo::I128 => 0x7fff_ffff_ffff_ffff_ffff_ffff_ffff_ffff,
        TypeInfo::U8 => 0xff,
        TypeInfo::U16 => 0xffff,
        TypeInfo::U32 => 0xffff_ffff,
        TypeInfo::U64 => 0xffff_ffff_ffff_ffff,
        TypeInfo::U128 => 0xffff_ffff_ffff_ffff_ffff_ffff_ffff_ffff,
        _ => usize::MAX as u128,
    };
    let mut value: u128 = 0;
    let mut j: usize = 0;
    proof {
        assert(digits@.take(0) =~= Seq::<char>::empty());
    }
    while j < n
        invariant
            0 <= j <= n,
            n == digits@.len(),
            forall|k: int| 0 <= k < n ==> is_digit(#[trigger] digits@[k]),
            value == digits_value(digits@.take(j as int)),
            value <= max,
            0x7f <= max,
            max == type_max(target),
            literal_type(suffix@, optional_text(expected)) == Ok::<TypeInfo, FrontendError>(target),
        decreases n - j,
    {
        let c = digits.get_char(j);
        assert(is_digit(digits@[j as int]));
        let d = (c as u32 - '0' as u32) as u128;
        proof {
            assert(is_digit(digits@[j as int]));
            assert(digits@.take(j + 1).drop_last() =~= digits@.take(j as int));
            assert(digits@.take(j + 1).last() == c);
        }
        if value > (max - d) / 10 {
            proof {
                assert(digits_value(digits@.take(j + 1)) > max) by (nonlinear_arith)
                    requires
                        digits_value(digits@.take(j + 1)) == value * 10 + d,
                        value > (max - d) / 10,
                        d <= 9,
                        d <= max,
                ;
                lemma_digits_value_grows(digits@, j + 1);
            }
            return Err(FrontendError::LiteralOutOfRange);
        }
        proof {
            assert(value * 10 + d <= max) by (nonlinear_arith)
                requires
                    value <= (max - d) / 10,
                    d <= max,
            ;
        }
        value = value * 10 + d;
        j = j + 1;
    }
    proof {
        assert(digits@.take(n as int) =~= digits@);
    }
    let constant = match target {
        TypeInfo::I8 => Value::I8(value as i8),
        TypeInfo::I16 => Value::I16(value as i16),
        TypeInfo::I32 => Value::I32(value as i32),
        TypeInfo::I64 => Value::I64(value as i64),
        TypeInfo::I128 => Value::I128(value as i128),
        TypeInfo::U8 => Value::U8(value as u8),
        TypeInfo::U16 => Value::U16(value as u16),
        TypeInfo::U32 => Value::U32(value as u32),
        TypeInfo::U64 => Value::U64(value as u64),
        TypeInfo::U128 => Value::U128(value),
        _ => Value::Usize(value as usize),
    };
    Ok(constant)
}

/// The value of a prefix of digits never exceeds that of a longer prefix.
proof fn lemma_digits_value_grows(digits: Seq<char>, k: int)
    requires
        0 <= k <= digits.len(),
        forall|i: int| 0 <= i < digits.len() ==> is_digit(#[trigger] digits[i]),
    ensures
        digits_value(digits.take(k)) <= digits_value(digits),
    decreases digits.len() - k,
{
    if k < digits.len() {
        lemma_digits_value_grows(digits, k + 1);
        assert(digits.take(k + 1).drop_last() =~= digits.take(k));
        assert(is_digit(digits[k]));
    } else {
        assert(digits.take(k) =~= digits);
    }
}


/// A closure argument or a captured variable, by name.
pub struct ClosureArgument {
    pub name: String,
    pub capture: bool,
}

/// A local variable, by name, and its position among the locals.
pub struct LocalVariable {
    pub name: String,
    pub index: usize,
}

/// The position of the first argument named `name`.
pub open spec fn first_named(arguments: Seq<ClosureArgument>, name: Seq<char>) -> Option<int>
    decreases arguments.len(),
{
    if arguments.len() == 0 {
        None
    } else if arguments[0].name@ == name {
        Some(0)
    } else {
        match first_named(arguments.drop_first(), name) {
            Some(i) => Some(i + 1),
            None => None,
        }
    }
}

/// The number of arguments before position `end` that are captures when
/// `capture`, and plain arguments otherwise.
pub open spec fn count_kind(arguments: Seq<ClosureArgument>, end: int, capture: bool) -> nat
    decreases end,
{
    if end <= 0 {
        0
    } else if arguments[end - 1].capture == capture {
        count_kind(arguments, end - 1, capture) + 1
    } else {
        count_kind(arguments, end - 1, capture)
    }
}

/// The position of the last local named `name`.
pub open spec fn last_named(locals: Seq<LocalVariable>, name: Seq<char>) -> Option<int>
    decreases locals.len(),
{
    if locals.len() == 0 {
        None
    } else if locals.last().name@ == name {
        Some(locals.len() - 1)
    } else {
        last_named(locals.drop_last(), name)
    }
}

/// What a name refers to, by Rust's scoping: the last local so named,
/// counted after the arguments; else the first argument so named, as a
/// capture or an argument counted among its kind.
pub open spec fn spec_lower_path(
    name: Seq<char>,
    arguments: Seq<ClosureArgument>,
    locals: Seq<LocalVariable>,
) -> Option<Expr> {
    match last_named(locals, name) {
        Some(j) => Some(
            Expr::Argument(
                (count_kind(arguments, arguments.len() as int, false) + locals[j].index) as usize,
            ),
        ),
        None => match first_named(arguments, name) {
            Some(i) => if arguments[i].capture {
                Some(Expr::Capture(count_kind(arguments, i, true) as usize))
            } else {
                Some(Expr::Argument(count_kind(arguments, i, false) as usize))
            },
            None => None,
        },
    }
}

proof fn lemma_count_kind_bound(arguments: Seq<ClosureArgument>, end: int, capture: bool)
    requires
        0 <= end <= arguments.len(),
    ensures
        count_kind(arguments, end, capture) <= end,
    decreases end,
{
    if end > 0 {
        lemma_count_kind_bound(arguments, end - 1, capture);
    }
}

proof fn lemma_first_named(arguments: Seq<ClosureArgument>, name: Seq<char>, i: int)
    requires
        0 <= i <= arguments.len(),
        forall|k: int| 0 <= k < i ==> #[trigger] arguments[k].name@ != name,
        i < arguments.len() ==> arguments[i].name@ == name,
    ensures
        first_named(arguments, name) == (if i < arguments.len() {
            Some(i)
        } else {
            None::<int>
        }),
    decreases arguments.len(),
{
    if arguments.len() > 0 && i > 0 {
        let rest = arguments.drop_first();
        assert forall|k: int| 0 <= k < i - 1 implies #[trigger] rest[k].name@ != name by {
            assert(rest[k] == arguments[k + 1]);
        }
        lemma_first_named(rest, name, i - 1);
        assert(arguments[0].name@ != name);
    }
}

proof fn lemma_last_named(locals: Seq<LocalVariable>, name: Seq<char>, j: int)
    requires
        -1 <= j < locals.len(),
        forall|k: int| j < k < locals.len() ==> #[trigger] locals[k].name@ != name,
        j >= 0 ==> locals[j].name@ == name,
    ensures
        last_named(locals, name) == (if j >= 0 {
            Some(j)
        } else {
            None::<int>
        }),
    decreases locals.len(),
{
    if locals.len() > 0 && j < locals.len() - 1 {
        let rest = locals.drop_last();
        assert forall|k: int| j < k < rest.len() implies #[trigger] rest[k].name@ != name by {
            assert(rest[k] == locals[k]);
        }
        lemma_last_named(rest, name, j);
        assert(locals.last().name@ != name);
    }
}

/// The expression a name in a closure body lowers to, or why it has none.
pub fn lower_path(name: &str, arguments: &[ClosureArgument], locals: &[LocalVariable]) -> (r: Result<Expr, FrontendError>)
    requires
        forall|j: int| 0 <= j < locals@.len() ==> arguments@.len() + #[trigger] locals@[j].index <= usize::MAX,
    ensures
        match spec_lower_path(name@, arguments@, locals@) {
            Some(e) => r == Ok::<Expr, FrontendError>(e),
            None => r matches Err(FrontendError::UnknownName(s)) && s@ == name@,
        },
{
    let mut j: usize = locals.len();
    while j > 0
        invariant
            0 <= j <= locals@.len(),
            forall|k: int| j <= k < locals@.len() ==> #[trigger] locals@[k].name@ != name@,
            forall|k: int|
                0 <= k < locals@.len() ==> arguments@.len() + #[trigger] locals@[k].index <= usize::MAX,
        decreases j,
    {
        if same_text(locals[j - 1].name.as_str(), name) {
            proof {
                lemma_last_named(locals@, name@, j - 1);
            }
            let mut count: usize = 0;
            let mut k: usize = 0;
            while k < arguments.len()
                invariant
                    0 <= k <= arguments@.len(),
                    count == count_kind(arguments@, k as int, false),
                decreases arguments@.len() - k,
            {
                proof {
                    lemma_count_kind_bound(arguments@, k as int, false);
                }
                if !arguments[k].capture {
                    count = count + 1;
                }
                k = k + 1;
            }
            proof {
                lemma_count_kind_bound(arguments@, arguments@.len() as int, false);
                assert(arguments@.len() + locals@[j - 1].index <= usize::MAX);
            }
            return Ok(Expr::Argument(count + locals[j - 1].index));
        }
        j = j - 1;
    }
    proof {
        lemma_last_named(locals@, name@, -1);
    }
    let mut i: usize = 0;
    while i < arguments.len()
        invariant
            0 <= i <= arguments@.len(),
            forall|k: int| 0 <= k < i ==> #[trigger] arguments@[k].name@ != name@,
            last_named(locals@, name@) == None::<int>,
        decreases arguments@.len() - i,
    {
        if same_text(arguments[i].name.as_str(), name) {
            proof {
                lemma_first_named(arguments@, name@, i as int);
            }
            let capture = arguments[i].capture;
            let mut position: usize = 0;
            let mut k: usize = 0;
            while k < i
                invariant
                    0 <= k <= i,
                    i < arguments@.len(),
                    capture == arguments@[i as int].capture,
                    position == count_kind(arguments@, k as int, capture),
                    last_named(locals@, name@) == None::<int>,
                    first_named(arguments@, name@) == Some(i as int),
                decreases i - k,
            {
                proof {
                    lemma_count_kind_bound(arguments@, k as int, capture);
                }
                if arguments[k].capture == capture {
                    position = position + 1;
                }
                k = k + 1;
            }
            if capture {
                return Ok(Expr::Capture(position));
            } else {
                return Ok(Expr::Argument(position));
            }
        }
        i = i + 1;
    }
    proof {
        lemma_first_named(arguments@, name@, arguments@.len() as int);
    }
    Err(FrontendError::UnknownName(name.to_owned()))
}

} // verus!
