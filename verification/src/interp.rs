//! The reference semantics of closure expressions: what the code generated
//! for an expression computes, given the captured values and the values of
//! the arguments and locals.
use vstd::prelude::*;
use crate::datum::{Datum, Val, models, constant_val, constant_datum, clone_datum, lemma_items_model, lemma_record_model, items_model, record_model};
use crate::decimal::{decimal_string, spec_decimal};
use crate::expr::Expr;
use crate::scalar::{EvalError, spec_scalar_binary, spec_scalar_unary, spec_scalar_cast, scalar_binary, scalar_unary, scalar_cast};
use crate::typing::{BinaryOp, UnaryOp};
use crate::value::Value;
use crate::types::TypeInfo;

verus! {

/// `a op b` on evaluated operands.
#[verifier::opaque]
pub open spec fn apply_binary(op: BinaryOp, a: Val, b: Val) -> Result<Val, EvalError> {
    match (a, b) {
        (Val::Scalar(x), Val::Scalar(y)) => match spec_scalar_binary(op, x, y) {
            Ok(v) => Ok(Val::Scalar(v)),
            Err(e) => Err(e),
        },
        _ => Err(EvalError::TypeMismatch),
    }
}

/// `op a` on an evaluated operand.
#[verifier::opaque]
pub open spec fn apply_unary(op: UnaryOp, a: Val) -> Result<Val, EvalError> {
    match a {
        Val::Scalar(x) => match spec_scalar_unary(op, x) {
            Ok(v) => Ok(Val::Scalar(v)),
            Err(e) => Err(e),
        },
        _ => Err(EvalError::TypeMismatch),
    }
}

/// Both operands are evaluated, left first, and then combined.
pub open spec fn combine(
    op: BinaryOp,
    l: Result<Val, EvalError>,
    r: Result<Val, EvalError>,
) -> Result<Val, EvalError> {
    match l {
        Err(e) => Err(e),
        Ok(a) => match r {
            Err(e) => Err(e),
            Ok(b) => apply_binary(op, a, b),
        },
    }
}

/// The value of the first field called `name`.
pub open spec fn find_val_field(fields: Seq<(Seq<char>, Val)>, name: Seq<char>) -> Option<Val>
    decreases fields.len(),
{
    if fields.len() == 0 {
        None
    } else if fields[0].0 == name {
        Some(fields[0].1)
    } else {
        find_val_field(fields.subrange(1, fields.len() as int), name)
    }
}

/// The fields of a tuple value: its elements named by position.
pub open spec fn tuple_record(values: Seq<Val>) -> Seq<(Seq<char>, Val)> {
    Seq::new(values.len(), |i: int| (spec_decimal(i as nat), values[i]))
}

/// `op a` on an operand that may have failed to evaluate.
pub open spec fn unary_result(op: UnaryOp, a: Result<Val, EvalError>) -> Result<Val, EvalError> {
    match a {
        Err(err) => Err(err),
        Ok(a) => apply_unary(op, a),
    }
}

/// `a as target`.
pub open spec fn cast_result(a: Result<Val, EvalError>, target: TypeInfo) -> Result<Val, EvalError> {
    match a {
        Err(err) => Err(err),
        Ok(Val::Scalar(x)) => match spec_scalar_cast(x, target) {
            Ok(v) => Ok(Val::Scalar(v)),
            Err(err) => Err(err),
        },
        Ok(_) => Err(EvalError::TypeMismatch),
    }
}

/// `s[i]`: a fault when `i` is not below the length of `s`.
pub open spec fn index_val(s: Val, i: Val) -> Result<Val, EvalError> {
    match (s, i) {
        (Val::Sequence(items), Val::Scalar(Value::Usize(k))) => if k < items.len() {
            Ok(items[k as int])
        } else {
            Err(EvalError::IndexOutOfBounds)
        },
        _ => Err(EvalError::TypeMismatch),
    }
}

pub open spec fn index_result(s: Result<Val, EvalError>, i: Result<Val, EvalError>) -> Result<
    Val,
    EvalError,
> {
    match s {
        Err(err) => Err(err),
        Ok(s) => match i {
            Err(err) => Err(err),
            Ok(i) => index_val(s, i),
        },
    }
}

/// The length of a sequence.
pub open spec fn len_val(s: Val) -> Result<Val, EvalError> {
    match s {
        Val::Sequence(items) => Ok(Val::Scalar(Value::Usize(items.len() as usize))),
        _ => Err(EvalError::TypeMismatch),
    }
}

pub open spec fn len_result(s: Result<Val, EvalError>) -> Result<Val, EvalError> {
    match s {
        Err(err) => Err(err),
        Ok(s) => len_val(s),
    }
}

/// The field called `name` of a record.
pub open spec fn field_result(o: Result<Val, EvalError>, name: String) -> Result<Val, EvalError> {
    match o {
        Err(err) => Err(err),
        Ok(Val::Record(fields)) => match find_val_field(fields, name@) {
            Some(v) => Ok(v),
            None => Err(EvalError::FieldNotFound(name)),
        },
        Ok(_) => Err(EvalError::TypeMismatch),
    }
}

/// The branch that the condition selects.
pub open spec fn if_result(
    c: Result<Val, EvalError>,
    t: Result<Val, EvalError>,
    f: Result<Val, EvalError>,
) -> Result<Val, EvalError> {
    match c {
        Err(err) => Err(err),
        Ok(Val::Scalar(Value::Bool(true))) => t,
        Ok(Val::Scalar(Value::Bool(false))) => f,
        Ok(_) => Err(EvalError::TypeMismatch),
    }
}

pub open spec fn record_result(fields: Result<Seq<(Seq<char>, Val)>, EvalError>) -> Result<
    Val,
    EvalError,
> {
    match fields {
        Err(err) => Err(err),
        Ok(values) => Ok(Val::Record(values)),
    }
}

pub open spec fn tuple_result(values: Result<Seq<Val>, EvalError>) -> Result<Val, EvalError> {
    match values {
        Err(err) => Err(err),
        Ok(values) => Ok(Val::Record(tuple_record(values))),
    }
}

/// The value of `e` when the captured values are `captures` and the
/// arguments followed by the locals are `env`. Subexpressions are
/// evaluated from left to right, and the first fault is the result; `&&`
/// and `||` evaluate their right operand only when the left one does not
/// decide the result.
pub open spec fn spec_eval(captures: Seq<Val>, env: Seq<Val>, e: Expr) -> Result<Val, EvalError>
    decreases e, 0nat,
{
    match e {
        Expr::Argument(index) => if index < env.len() {
            Ok(env[index as int])
        } else {
            Err(EvalError::ArgumentOutOfBounds(index))
        },
        Expr::Capture(index) => if index < captures.len() {
            Ok(captures[index as int])
        } else {
            Err(EvalError::CaptureOutOfBounds(index))
        },
        Expr::Constant(value) => Ok(constant_val(value)),
        Expr::Cast { expr, target_type, .. } => cast_result(
            spec_eval(captures, env, *expr),
            target_type,
        ),
        Expr::Index { sequence, index } => index_result(
            spec_eval(captures, env, *sequence),
            spec_eval(captures, env, *index),
        ),
        Expr::Len { sequence } => len_result(spec_eval(captures, env, *sequence)),
        Expr::Field { object, name } => field_result(spec_eval(captures, env, *object), name),
        Expr::Struct { fields, .. } => {
            proof {
                assert(decreases_to!(fields => fields@));
            }
            record_result(spec_eval_fields(captures, env, fields@))
        },
        Expr::Tuple { elements } => {
            proof {
                assert(decreases_to!(elements => elements@));
            }
            tuple_result(spec_eval_elements(captures, env, elements@))
        },
        Expr::Intrinsic { .. } => Err(EvalError::Unsupported),
        Expr::ExternalCall { .. } => Err(EvalError::Unsupported),
        Expr::Add { lhs, rhs } => combine(
            BinaryOp::Add,
            spec_eval(captures, env, *lhs),
            spec_eval(captures, env, *rhs),
        ),
        Expr::Sub { lhs, rhs } => combine(
            BinaryOp::Sub,
            spec_eval(captures, env, *lhs),
            spec_eval(captures, env, *rhs),
        ),
        Expr::Mul { lhs, rhs } => combine(
            BinaryOp::Mul,
            spec_eval(captures, env, *lhs),
            spec_eval(captures, env, *rhs),
        ),
        Expr::Div { lhs, rhs } => combine(
            BinaryOp::Div,
            spec_eval(captures, env, *lhs),
            spec_eval(captures, env, *rhs),
        ),
        Expr::Rem { lhs, rhs } => combine(
            BinaryOp::Rem,
            spec_eval(captures, env, *lhs),
            spec_eval(captures, env, *rhs),
        ),
        Expr::Eq { lhs, rhs } => combine(
            BinaryOp::Eq,
            spec_eval(captures, env, *lhs),
            spec_eval(captures, env, *rhs),
        ),
        Expr::Ne { lhs, rhs } => combine(
            BinaryOp::Ne,
            spec_eval(captures, env, *lhs),
            spec_eval(captures, env, *rhs),
        ),
        Expr::Lt { lhs, rhs } => combine(
            BinaryOp::Lt,
            spec_eval(captures, env, *lhs),
            spec_eval(captures, env, *rhs),
        ),
        Expr::Le { lhs, rhs } => combine(
            BinaryOp::Le,
            spec_eval(captures, env, *lhs),
            spec_eval(captures, env, *rhs),
        ),
        Expr::Gt { lhs, rhs } => combine(
            BinaryOp::Gt,
            spec_eval(captures, env, *lhs),
            spec_eval(captures, env, *rhs),
        ),
        Expr::Ge { lhs, rhs } => combine(
            BinaryOp::Ge,
            spec_eval(captures, env, *lhs),
            spec_eval(captures, env, *rhs),
        ),
        Expr::And { lhs, rhs } => match spec_eval(captures, env, *lhs) {
            Ok(Val::Scalar(Value::Bool(false))) => Ok(Val::Scalar(Value::Bool(false))),
            l => combine(BinaryOp::And, l, spec_eval(captures, env, *rhs)),
        },
        Expr::Or { lhs, rhs } => match spec_eval(captures, env, *lhs) {
            Ok(Val::Scalar(Value::Bool(true))) => Ok(Val::Scalar(Value::Bool(true))),
            l => combine(BinaryOp::Or, l, spec_eval(captures, env, *rhs)),
        },
        Expr::BitAnd { lhs, rhs } => combine(
            BinaryOp::BitAnd,
            spec_eval(captures, env, *lhs),
            spec_eval(captures, env, *rhs),
        ),
        Expr::BitOr { lhs, rhs } => combine(
            BinaryOp::BitOr,
            spec_eval(captures, env, *lhs),
            spec_eval(captures, env, *rhs),
        ),
        Expr::BitXor { lhs, rhs } => combine(
            BinaryOp::BitXor,
            spec_eval(captures, env, *lhs),
            spec_eval(captures, env, *rhs),
        ),
        Expr::Shl { lhs, rhs } => combine(
            BinaryOp::Shl,
            spec_eval(captures, env, *lhs),
            spec_eval(captures, env, *rhs),
        ),
        Expr::Shr { lhs, rhs } => combine(
            BinaryOp::Shr,
            spec_eval(captures, env, *lhs),
            spec_eval(captures, env, *rhs),
        ),
        Expr::Not { operand } => unary_result(UnaryOp::Not, spec_eval(captures, env, *operand)),
        Expr::Neg { operand } => unary_result(UnaryOp::Neg, spec_eval(captures, env, *operand)),
        Expr::IfElse { condition, then_branch, else_branch } => if_result(
            spec_eval(captures, env, *condition),
            spec_eval(captures, env, *then_branch),
            spec_eval(captures, env, *else_branch),
        ),
    }
}

/// The values of `elements`, evaluated from left to right.
pub open spec fn spec_eval_elements(captures: Seq<Val>, env: Seq<Val>, elements: Seq<Expr>) -> Result<
    Seq<Val>,
    EvalError,
>
    decreases elements, 1nat,
{
    if elements.len() == 0 {
        Ok(Seq::empty())
    } else {
        match spec_eval_elements(captures, env, elements.drop_last()) {
            Err(err) => Err(err),
            Ok(prefix) => match spec_eval(captures, env, elements.last()) {
                Err(err) => Err(err),
                Ok(v) => Ok(prefix.push(v)),
            },
        }
    }
}

/// The named values of the fields of a struct literal, evaluated in order.
pub open spec fn spec_eval_fields(
    captures: Seq<Val>,
    env: Seq<Val>,
    fields: Seq<(String, Expr)>,
) -> Result<Seq<(Seq<char>, Val)>, EvalError>
    decreases fields, 1nat,
{
    if fields.len() == 0 {
        Ok(Seq::empty())
    } else {
        match spec_eval_fields(captures, env, fields.drop_last()) {
            Err(err) => Err(err),
            Ok(prefix) => match spec_eval(captures, env, fields.last().1) {
                Err(err) => Err(err),
                Ok(v) => Ok(prefix.push((fields.last().0@, v))),
            },
        }
    }
}


/// An executable result agrees with the specified one: the same error, or a
/// datum with the specified model.
pub open spec fn eval_agrees(r: Result<Datum, EvalError>, s: Result<Val, EvalError>) -> bool {
    match (r, s) {
        (Ok(d), Ok(v)) => d@ == v,
        (Err(a), Err(b)) => a == b,
        _ => false,
    }
}

/// Whether `a` is the boolean `value`.
fn is_bool_datum(a: &Datum, value: bool) -> (r: bool)
    ensures
        r == (a@ == Val::Scalar(Value::Bool(value))),
{
    match a {
        Datum::Scalar(Value::Bool(b)) => *b == value,
        _ => false,
    }
}

/// `a op b` on evaluated operands.
pub(crate) fn apply_binary_datum(op: BinaryOp, a: &Datum, b: &Datum) -> (r: Result<Datum, EvalError>)
    ensures
        eval_agrees(r, apply_binary(op, a@, b@)),
{
    reveal(apply_binary);
    match (a, b) {
        (Datum::Scalar(x), Datum::Scalar(y)) => {
            if let Value::Array(_) = x {
                return Err(EvalError::TypeMismatch);
            }
            if let Value::Array(_) = y {
                return Err(EvalError::TypeMismatch);
            }
            match scalar_binary(op, x, y) {
                Ok(v) => {
                    assert(!(v is Array));
                    Ok(Datum::Scalar(v))
                },
                Err(e) => Err(e),
            }
        },
        _ => Err(EvalError::TypeMismatch),
    }
}

/// `op a` on an evaluated operand.
fn apply_unary_datum(op: UnaryOp, a: &Datum) -> (r: Result<Datum, EvalError>)
    ensures
        eval_agrees(r, apply_unary(op, a@)),
{
    reveal(apply_unary);
    match a {
        Datum::Scalar(x) => {
            if let Value::Array(_) = x {
                return Err(EvalError::TypeMismatch);
            }
            match scalar_unary(op, x) {
                Ok(v) => {
                    assert(!(v is Array));
                    Ok(Datum::Scalar(v))
                },
                Err(e) => Err(e),
            }
        },
        _ => Err(EvalError::TypeMismatch),
    }
}

proof fn lemma_find_val_field(fields: Seq<(String, Datum)>, name: Seq<char>, i: int)
    requires
        0 <= i <= fields.len(),
        forall|j: int| 0 <= j < i ==> #[trigger] fields[j].0@ != name,
        i < fields.len() ==> fields[i].0@ == name,
    ensures
        find_val_field(record_model(fields), name) == (if i < fields.len() {
            Some(fields[i].1@)
        } else {
            None::<Val>
        }),
    decreases fields.len(),
{
    lemma_record_model(fields);
    if fields.len() > 0 {
        let rest = fields.subrange(1, fields.len() as int);
        lemma_record_model(rest);
        assert(record_model(fields).subrange(1, fields.len() as int) =~= record_model(rest));
        if i > 0 {
            assert forall|j: int| 0 <= j < i - 1 implies #[trigger] rest[j].0@ != name by {
                assert(rest[j] == fields[j + 1]);
            }
            lemma_find_val_field(rest, name, i - 1);
        }
    }
}

/// The value of the first field called `name` of a record.
fn record_field(fields: &Vec<(String, Datum)>, name: &String) -> (r: Result<Datum, EvalError>)
    ensures
        eval_agrees(
            r,
            match find_val_field(record_model(fields@), name@) {
                Some(v) => Ok(v),
                None => Err(EvalError::FieldNotFound(*name)),
            },
        ),
{
    let mut i: usize = 0;
    while i < fields.len()
        invariant
            0 <= i <= fields@.len(),
            forall|j: int| 0 <= j < i ==> #[trigger] fields@[j].0@ != name@,
        decreases fields@.len() - i,
    {
        if fields[i].0 == *name {
            proof {
                lemma_find_val_field(fields@, name@, i as int);
            }
            return Ok(clone_datum(&fields[i].1));
        }
        i = i + 1;
    }
    proof {
        lemma_find_val_field(fields@, name@, i as int);
    }
    Err(EvalError::FieldNotFound(name.clone()))
}

/// The element at `index` of an evaluated sequence.
fn index_datum(s: &Datum, i: &Datum) -> (r: Result<Datum, EvalError>)
    ensures
        eval_agrees(r, index_val(s@, i@)),
{
    let k = match i {
        Datum::Scalar(Value::Usize(k)) => *k,
        _ => return Err(EvalError::TypeMismatch),
    };
    match s {
        Datum::Sequence(items) => {
            proof {
                lemma_items_model(items@);
            }
            if k < items.len() {
                Ok(clone_datum(&items[k]))
            } else {
                Err(EvalError::IndexOutOfBounds)
            }
        },
        Datum::Scalar(Value::Array(values)) => {
            proof {
                crate::datum::lemma_constants_val(values@);
            }
            if k < values.len() {
                Ok(constant_datum(&values[k]))
            } else {
                Err(EvalError::IndexOutOfBounds)
            }
        },
        _ => Err(EvalError::TypeMismatch),
    }
}

/// The length of an evaluated sequence.
fn len_datum(s: &Datum) -> (r: Result<Datum, EvalError>)
    ensures
        eval_agrees(r, len_val(s@)),
{
    match s {
        Datum::Sequence(items) => {
            proof {
                lemma_items_model(items@);
            }
            Ok(Datum::Scalar(Value::Usize(items.len())))
        },
        Datum::Scalar(Value::Array(values)) => {
            proof {
                crate::datum::lemma_constants_val(values@);
            }
            Ok(Datum::Scalar(Value::Usize(values.len())))
        },
        _ => Err(EvalError::TypeMismatch),
    }
}

/// Evaluates `e` when the captured values are `captures` and the arguments
/// followed by the locals are `env`.
#[verifier::spinoff_prover]
pub fn eval_expr(captures: &Vec<Datum>, env: &Vec<Datum>, e: &Expr) -> (r: Result<Datum, EvalError>)
    ensures
        eval_agrees(r, spec_eval(models(captures@), models(env@), *e)),
    decreases e,
{
    match e {
        Expr::Argument(index) => {
            if *index < env.len() {
                Ok(clone_datum(&env[*index]))
            } else {
                Err(EvalError::ArgumentOutOfBounds(*index))
            }
        },
        Expr::Capture(index) => {
            if *index < captures.len() {
                Ok(clone_datum(&captures[*index]))
            } else {
                Err(EvalError::CaptureOutOfBounds(*index))
            }
        },
        Expr::Constant(value) => Ok(constant_datum(value)),
        Expr::Cast { expr: inner, target_type, .. } => {
            let a = eval_expr(captures, env, inner)?;
            match a {
                Datum::Scalar(x) => {
                    if let Value::Array(_) = x {
                        return Err(EvalError::TypeMismatch);
                    }
                    match scalar_cast(&x, target_type) {
                        Ok(v) => {
                            assert(!(v is Array));
                            Ok(Datum::Scalar(v))
                        },
                        Err(err) => Err(err),
                    }
                },
                _ => Err(EvalError::TypeMismatch),
            }
        },
        Expr::Index { sequence, index } => {
            let s = eval_expr(captures, env, sequence)?;
            let i = eval_expr(captures, env, index)?;
            index_datum(&s, &i)
        },
        Expr::Len { sequence } => {
            let s = eval_expr(captures, env, sequence)?;
            len_datum(&s)
        },
        Expr::Field { object, name } => {
            let o = eval_expr(captures, env, object)?;
            match o {
                Datum::Record(fields) => record_field(&fields, name),
                Datum::Sequence(_) => Err(EvalError::TypeMismatch),
                Datum::Scalar(_) => Err(EvalError::TypeMismatch),
            }
        },
        Expr::Struct { fields, .. } => {
            proof {
                assert(decreases_to!(*e => (*e)->Struct_fields));
            }
            let values = eval_fields(captures, env, fields)?;
            Ok(Datum::Record(values))
        },
        Expr::Tuple { elements } => {
            proof {
                assert(decreases_to!(*e => (*e)->elements));
            }
            eval_tuple(captures, env, elements)
        },
        Expr::Intrinsic { .. } => Err(EvalError::Unsupported),
        Expr::ExternalCall { .. } => Err(EvalError::Unsupported),
        Expr::Not { operand } => {
            let a = eval_expr(captures, env, operand)?;
            apply_unary_datum(UnaryOp::Not, &a)
        },
        Expr::Neg { operand } => {
            let a = eval_expr(captures, env, operand)?;
            apply_unary_datum(UnaryOp::Neg, &a)
        },
        Expr::IfElse { condition, then_branch, else_branch } => {
            let c = eval_expr(captures, env, condition)?;
            match c {
                Datum::Scalar(Value::Bool(true)) => eval_expr(captures, env, then_branch),
                Datum::Scalar(Value::Bool(false)) => eval_expr(captures, env, else_branch),
                _ => Err(EvalError::TypeMismatch),
            }
        },
        Expr::Add { lhs, rhs } => {
            let a = eval_expr(captures, env, lhs)?;
            let b = eval_expr(captures, env, rhs)?;
            apply_binary_datum(BinaryOp::Add, &a, &b)
        },
        Expr::Sub { lhs, rhs } => {
            let a = eval_expr(captures, env, lhs)?;
            let b = eval_expr(captures, env, rhs)?;
            apply_binary_datum(BinaryOp::Sub, &a, &b)
        },
        Expr::Mul { lhs, rhs } => {
            let a = eval_expr(captures, env, lhs)?;
            let b = eval_expr(captures, env, rhs)?;
            apply_binary_datum(BinaryOp::Mul, &a, &b)
        },
        Expr::Div { lhs, rhs } => {
            let a = eval_expr(captures, env, lhs)?;
            let b = eval_expr(captures, env, rhs)?;
            apply_binary_datum(BinaryOp::Div, &a, &b)
        },
        Expr::Rem { lhs, rhs } => {
            let a = eval_expr(captures, env, lhs)?;
            let b = eval_expr(captures, env, rhs)?;
            apply_binary_datum(BinaryOp::Rem, &a, &b)
        },
        Expr::Eq { lhs, rhs } => {
            let a = eval_expr(captures, env, lhs)?;
            let b = eval_expr(captures, env, rhs)?;
            apply_binary_datum(BinaryOp::Eq, &a, &b)
        },
        Expr::Ne { lhs, rhs } => {
            let a = eval_expr(captures, env, lhs)?;
            let b = eval_expr(captures, env, rhs)?;
            apply_binary_datum(BinaryOp::Ne, &a, &b)
        },
        Expr::Lt { lhs, rhs } => {
            let a = eval_expr(captures, env, lhs)?;
            let b = eval_expr(captures, env, rhs)?;
            apply_binary_datum(BinaryOp::Lt, &a, &b)
        },
        Expr::Le { lhs, rhs } => {
            let a = eval_expr(captures, env, lhs)?;
            let b = eval_expr(captures, env, rhs)?;
            apply_binary_datum(BinaryOp::Le, &a, &b)
        },
        Expr::Gt { lhs, rhs } => {
            let a = eval_expr(captures, env, lhs)?;
            let b = eval_expr(captures, env, rhs)?;
            apply_binary_datum(BinaryOp::Gt, &a, &b)
        },
        Expr::Ge { lhs, rhs } => {
            let a = eval_expr(captures, env, lhs)?;
            let b = eval_expr(captures, env, rhs)?;
            apply_binary_datum(BinaryOp::Ge, &a, &b)
        },
        Expr::And { lhs, rhs } => {
            let a = eval_expr(captures, env, lhs)?;
            if is_bool_datum(&a, false) {
                return Ok(Datum::Scalar(Value::Bool(false)));
            }
            let b = eval_expr(captures, env, rhs)?;
            apply_binary_datum(BinaryOp::And, &a, &b)
        },
        Expr::Or { lhs, rhs } => {
            let a = eval_expr(captures, env, lhs)?;
            if is_bool_datum(&a, true) {
                return Ok(Datum::Scalar(Value::Bool(true)));
            }
            let b = eval_expr(captures, env, rhs)?;
            apply_binary_datum(BinaryOp::Or, &a, &b)
        },
        Expr::BitAnd { lhs, rhs } => {
            let a = eval_expr(captures, env, lhs)?;
            let b = eval_expr(captures, env, rhs)?;
            apply_binary_datum(BinaryOp::BitAnd, &a, &b)
        },
        Expr::BitOr { lhs, rhs } => {
            let a = eval_expr(captures, env, lhs)?;
            let b = eval_expr(captures, env, rhs)?;
            apply_binary_datum(BinaryOp::BitOr, &a, &b)
        },
        Expr::BitXor { lhs, rhs } => {
            let a = eval_expr(captures, env, lhs)?;
            let b = eval_expr(captures, env, rhs)?;
            apply_binary_datum(BinaryOp::BitXor, &a, &b)
        },
        Expr::Shl { lhs, rhs } => {
            let a = eval_expr(captures, env, lhs)?;
            let b = eval_expr(captures, env, rhs)?;
            apply_binary_datum(BinaryOp::Shl, &a, &b)
        },
        Expr::Shr { lhs, rhs } => {
            let a = eval_expr(captures, env, lhs)?;
            let b = eval_expr(captures, env, rhs)?;
            apply_binary_datum(BinaryOp::Shr, &a, &b)
        },
    }
}

/// Evaluates the fields of a struct literal in order.
fn eval_fields(captures: &Vec<Datum>, env: &Vec<Datum>, fields: &Vec<(String, Expr)>) -> (r: Result<
    Vec<(String, Datum)>,
    EvalError,
>)
    ensures
        match (r, spec_eval_fields(models(captures@), models(env@), fields@)) {
            (Ok(out), Ok(spec)) => record_model(out@) == spec,
            (Err(a), Err(b)) => a == b,
            _ => false,
        },
    decreases fields,
{
    let ghost c = models(captures@);
    let ghost m = models(env@);
    let mut out: Vec<(String, Datum)> = Vec::new();
    let mut i: usize = 0;
    assert(fields@.subrange(0, 0) =~= Seq::<(String, Expr)>::empty());
    proof {
        lemma_record_model(out@);
    }
    while i < fields.len()
        invariant
            0 <= i <= fields@.len(),
            c == models(captures@),
            m == models(env@),
            spec_eval_fields(c, m, fields@.subrange(0, i as int)) == Ok::<
                Seq<(Seq<char>, Val)>,
                EvalError,
            >(record_model(out@)),
        decreases fields@.len() - i,
    {
        proof {
            assert(decreases_to!(*fields => fields@));
            assert(decreases_to!(fields@ => fields@[i as int]));
            assert(decreases_to!(fields@[i as int] => fields@[i as int].1));
            assert(fields@.subrange(0, i + 1).drop_last() =~= fields@.subrange(0, i as int));
            assert(fields@.subrange(0, i + 1).last() == fields@[i as int]);
        }
        let v = match eval_expr(captures, env, &fields[i].1) {
            Ok(v) => v,
            Err(err) => {
                proof {
                    lemma_fields_error_extends(c, m, fields@, i + 1, fields@.len() as int);
                    assert(fields@.subrange(0, fields@.len() as int) =~= fields@);
                }
                return Err(err);
            },
        };
        let entry = (fields[i].0.clone(), v);
        let ghost before = out@;
        out.push(entry);
        proof {
            lemma_record_model(before);
            lemma_record_model(out@);
            assert(out@ == before.push(entry));
            assert(record_model(out@) =~= record_model(before).push((entry.0@, entry.1@)));
        }
        i = i + 1;
    }
    proof {
        assert(fields@.subrange(0, fields@.len() as int) =~= fields@);
    }
    Ok(out)
}

proof fn lemma_fields_error_extends(
    c: Seq<Val>,
    m: Seq<Val>,
    fields: Seq<(String, Expr)>,
    i: int,
    j: int,
)
    requires
        0 <= i <= j <= fields.len(),
        spec_eval_fields(c, m, fields.subrange(0, i)) is Err,
    ensures
        spec_eval_fields(c, m, fields.subrange(0, j)) == spec_eval_fields(c, m, fields.subrange(0, i)),
    decreases j - i,
{
    if j > i {
        lemma_fields_error_extends(c, m, fields, i, j - 1);
        assert(fields.subrange(0, j).drop_last() =~= fields.subrange(0, j - 1));
    }
}

proof fn lemma_elements_error_extends(c: Seq<Val>, m: Seq<Val>, elements: Seq<Expr>, i: int, j: int)
    requires
        0 <= i <= j <= elements.len(),
        spec_eval_elements(c, m, elements.subrange(0, i)) is Err,
    ensures
        spec_eval_elements(c, m, elements.subrange(0, j)) == spec_eval_elements(
            c,
            m,
            elements.subrange(0, i),
        ),
    decreases j - i,
{
    if j > i {
        lemma_elements_error_extends(c, m, elements, i, j - 1);
        assert(elements.subrange(0, j).drop_last() =~= elements.subrange(0, j - 1));
    }
}

/// Evaluates a tuple: its elements from left to right, named by position.
fn eval_tuple(captures: &Vec<Datum>, env: &Vec<Datum>, elements: &Vec<Expr>) -> (r: Result<
    Datum,
    EvalError,
>)
    ensures
        eval_agrees(r, tuple_result(spec_eval_elements(models(captures@), models(env@), elements@))),
    decreases elements,
{
    let ghost c = models(captures@);
    let ghost m = models(env@);
    let mut out: Vec<(String, Datum)> = Vec::new();
    let ghost mut vals: Seq<Val> = Seq::empty();
    let mut i: usize = 0;
    assert(elements@.subrange(0, 0) =~= Seq::<Expr>::empty());
    while i < elements.len()
        invariant
            0 <= i <= elements@.len(),
            c == models(captures@),
            m == models(env@),
            spec_eval_elements(c, m, elements@.subrange(0, i as int)) == Ok::<Seq<Val>, EvalError>(
                vals,
            ),
            out@.len() == i,
            vals.len() == i,
            forall|k: int|
                0 <= k < i ==> (#[trigger] out@[k]).0@ == spec_decimal(k as nat) && out@[k].1@
                    == vals[k],
        decreases elements@.len() - i,
    {
        proof {
            assert(decreases_to!(*elements => elements@));
            assert(decreases_to!(elements@ => elements@[i as int]));
            assert(elements@.subrange(0, i + 1).drop_last() =~= elements@.subrange(0, i as int));
            assert(elements@.subrange(0, i + 1).last() == elements@[i as int]);
        }
        let v = match eval_expr(captures, env, &elements[i]) {
            Ok(v) => v,
            Err(err) => {
                proof {
                    lemma_elements_error_extends(c, m, elements@, i + 1, elements@.len() as int);
                    assert(elements@.subrange(0, elements@.len() as int) =~= elements@);
                }
                return Err(err);
            },
        };
        let entry = (decimal_string(i), v);
        proof {
            vals = vals.push(entry.1@);
        }
        out.push(entry);
        i = i + 1;
    }
    proof {
        assert(elements@.subrange(0, elements@.len() as int) =~= elements@);
        lemma_record_model(out@);
        assert(record_model(out@) =~= tuple_record(vals));
    }
    Ok(Datum::Record(out))
}

} // verus!
