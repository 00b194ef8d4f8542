//! The reference semantics of statements, blocks and closures. Loops are
//! bounded by fuel: each iteration of a loop consumes one unit, and a body
//! runs with one unit less than the loop that runs it.
use vstd::prelude::*;
use crate::datum::{Datum, Val, models, clone_datum, constant_datum, lemma_items_model};
use crate::expr::{Block, Closure, Expr, Statement};
use crate::interp::{apply_binary, apply_binary_datum, eval_agrees, eval_expr, spec_eval};
use crate::scalar::{EvalError, one_like, spec_one_like, scalar_binary, spec_scalar_binary};
use crate::typing::BinaryOp;
use crate::value::Value;

verus! {

/// Whether a `for` loop with the counter at `counter` runs its body once
/// more.
pub open spec fn for_continues(counter: Val, end: Val, inclusive: bool) -> Result<bool, EvalError> {
    match (apply_binary(BinaryOp::Lt, counter, end), apply_binary(BinaryOp::Eq, counter, end)) {
        (Ok(Val::Scalar(Value::Bool(lt))), Ok(Val::Scalar(Value::Bool(eq)))) => Ok(
            lt || (inclusive && eq),
        ),
        (Err(err), _) => Err(err),
        (_, Err(err)) => Err(err),
        _ => Err(EvalError::TypeMismatch),
    }
}

/// The counter of a `for` loop after `counter`.
pub open spec fn successor(counter: Val) -> Result<Val, EvalError> {
    match counter {
        Val::Scalar(x) => match spec_one_like(x) {
            Some(one) => apply_binary(BinaryOp::Add, counter, Val::Scalar(one)),
            None => Err(EvalError::TypeMismatch),
        },
        _ => Err(EvalError::TypeMismatch),
    }
}

/// Runs `block` on `env`, whose first `arguments` entries are the
/// arguments: the values of the entries of `env` afterwards (the locals the
/// block introduces are dropped) and the value of its result expression.
pub open spec fn spec_run_block(
    captures: Seq<Val>,
    arguments: nat,
    env: Seq<Val>,
    block: Block,
    fuel: nat,
) -> Result<(Seq<Val>, Option<Val>), EvalError>
    decreases fuel, block,
{
    proof {
        assert(decreases_to!(block => block.statements));
        assert(decreases_to!(block.statements => block.statements@));
    }
    match spec_run_statements(captures, arguments, env, block.statements@, fuel) {
        Err(err) => Err(err),
        Ok(after) => match block.result {
            None => Ok((after.take(env.len() as int), None)),
            Some(e) => match spec_eval(captures, after, e) {
                Err(err) => Err(err),
                Ok(v) => Ok((after.take(env.len() as int), Some(v))),
            },
        },
    }
}

/// Runs `statements` in order on `env`.
pub open spec fn spec_run_statements(
    captures: Seq<Val>,
    arguments: nat,
    env: Seq<Val>,
    statements: Seq<Statement>,
    fuel: nat,
) -> Result<Seq<Val>, EvalError>
    decreases fuel, statements,
{
    if statements.len() == 0 {
        Ok(env)
    } else {
        match spec_run_statement(captures, arguments, env, statements[0], fuel) {
            Err(err) => Err(err),
            Ok(after) => spec_run_statements(
                captures,
                arguments,
                after,
                statements.subrange(1, statements.len() as int),
                fuel,
            ),
        }
    }
}

/// Runs `sequence[index] = value` on `env`; the sequence must be an
/// argument.
pub open spec fn spec_assign_index(
    captures: Seq<Val>,
    env: Seq<Val>,
    sequence: Expr,
    index: Expr,
    value: Expr,
) -> Result<Seq<Val>, EvalError> {
    match sequence {
            Expr::Argument(slot) => if slot >= env.len() {
                Err(EvalError::ArgumentOutOfBounds(slot))
            } else {
                match spec_eval(captures, env, index) {
                    Err(err) => Err(err),
                    Ok(i) => match spec_eval(captures, env, value) {
                        Err(err) => Err(err),
                        Ok(v) => match (env[slot as int], i) {
                            (Val::Sequence(items), Val::Scalar(Value::Usize(k))) => if k
                                < items.len() {
                                Ok(env.update(slot as int, Val::Sequence(items.update(k as int, v))))
                            } else {
                                Err(EvalError::IndexOutOfBounds)
                            },
                            _ => Err(EvalError::TypeMismatch),
                        },
                    },
                }
            },
            _ => Err(EvalError::Unsupported),
        }
}

/// Runs one statement on `env`.
pub open spec fn spec_run_statement(
    captures: Seq<Val>,
    arguments: nat,
    env: Seq<Val>,
    statement: Statement,
    fuel: nat,
) -> Result<Seq<Val>, EvalError>
    decreases fuel, statement,
{
    match statement {
        Statement::Let { local, value, .. } => if arguments + local != env.len() {
            Err(EvalError::InvalidLocal(local))
        } else {
            match spec_eval(captures, env, value) {
                Err(err) => Err(err),
                Ok(v) => Ok(env.push(v)),
            }
        },
        Statement::Assign { local, value } => if arguments + local >= env.len() {
            Err(EvalError::InvalidLocal(local))
        } else {
            match spec_eval(captures, env, value) {
                Err(err) => Err(err),
                Ok(v) => Ok(env.update(arguments + local, v)),
            }
        },
        Statement::AssignIndex { sequence, index, value } => spec_assign_index(
            captures,
            env,
            sequence,
            index,
            value,
        ),
        Statement::While { condition, body } => spec_run_while(
            captures,
            arguments,
            env,
            condition,
            body,
            fuel,
        ),
        Statement::For { local, start, end, inclusive, body, .. } => if arguments + local
            != env.len() {
            Err(EvalError::InvalidLocal(local))
        } else {
            match spec_eval(captures, env, start) {
                Err(err) => Err(err),
                Ok(first) => match spec_eval(captures, env, end) {
                    Err(err) => Err(err),
                    Ok(last) => spec_run_for(
                        captures,
                        arguments,
                        env,
                        first,
                        last,
                        inclusive,
                        body,
                        fuel,
                    ),
                },
            }
        },
    }
}

/// Runs `while condition { body }` on `env`.
pub open spec fn spec_run_while(
    captures: Seq<Val>,
    arguments: nat,
    env: Seq<Val>,
    condition: Expr,
    body: Block,
    fuel: nat,
) -> Result<Seq<Val>, EvalError>
    decreases fuel, body,
{
    if fuel == 0 {
        Err(EvalError::OutOfFuel)
    } else {
        match spec_eval(captures, env, condition) {
            Err(err) => Err(err),
            Ok(Val::Scalar(Value::Bool(false))) => Ok(env),
            Ok(Val::Scalar(Value::Bool(true))) => match spec_run_block(
                captures,
                arguments,
                env,
                body,
                (fuel - 1) as nat,
            ) {
                Err(err) => Err(err),
                Ok((_, Some(_))) => Err(EvalError::UnexpectedResult),
                Ok((after, None)) => spec_run_while(
                    captures,
                    arguments,
                    after,
                    condition,
                    body,
                    (fuel - 1) as nat,
                ),
            },
            Ok(_) => Err(EvalError::TypeMismatch),
        }
    }
}

/// Runs a `for` loop over the range from `counter` to `end` on `env`; the
/// counter is the local that follows the entries of `env`.
pub open spec fn spec_run_for(
    captures: Seq<Val>,
    arguments: nat,
    env: Seq<Val>,
    counter: Val,
    end: Val,
    inclusive: bool,
    body: Block,
    fuel: nat,
) -> Result<Seq<Val>, EvalError>
    decreases fuel, body,
{
    if fuel == 0 {
        Err(EvalError::OutOfFuel)
    } else {
        match for_continues(counter, end, inclusive) {
            Err(err) => Err(err),
            Ok(false) => Ok(env),
            Ok(true) => match spec_run_block(
                captures,
                arguments,
                env.push(counter),
                body,
                (fuel - 1) as nat,
            ) {
                Err(err) => Err(err),
                Ok((_, Some(_))) => Err(EvalError::UnexpectedResult),
                Ok((after, None)) => {
                    let rest = after.take(env.len() as int);
                    match apply_binary(BinaryOp::Eq, counter, end) {
                        Ok(Val::Scalar(Value::Bool(true))) => Ok(rest),
                        _ => match successor(counter) {
                            Err(err) => Err(err),
                            Ok(next) => spec_run_for(
                                captures,
                                arguments,
                                rest,
                                next,
                                end,
                                inclusive,
                                body,
                                (fuel - 1) as nat,
                            ),
                        },
                    }
                },
            },
        }
    }
}

/// Calls `closure` with the captured values `captures` and the arguments
/// `args`: its result and the values of its arguments afterwards.
pub open spec fn spec_call(closure: Closure, captures: Seq<Val>, args: Seq<Val>, fuel: nat) -> Result<
    (Option<Val>, Seq<Val>),
    EvalError,
> {
    if captures.len() != closure.captures@.len() || args.len() != closure.arguments@.len() {
        Err(EvalError::ArityMismatch)
    } else {
        match spec_run_block(captures, args.len(), args, closure.body, fuel) {
            Err(err) => Err(err),
            Ok((after, result)) => Ok((result, after)),
        }
    }
}


/// An executable optional result agrees with the specified one.
pub open spec fn option_agrees(o: Option<Datum>, s: Option<Val>) -> bool {
    match (o, s) {
        (Some(d), Some(v)) => d@ == v,
        (None, None) => true,
        _ => false,
    }
}

proof fn lemma_models_update(s: Seq<Datum>, i: int, d: Datum)
    requires
        0 <= i < s.len(),
    ensures
        models(s.update(i, d)) == models(s).update(i, d@),
{
    assert(models(s.update(i, d)) =~= models(s).update(i, d@));
}

proof fn lemma_models_push(s: Seq<Datum>, d: Datum)
    ensures
        models(s.push(d)) == models(s).push(d@),
{
    assert(models(s.push(d)) =~= models(s).push(d@));
}

proof fn lemma_models_take(s: Seq<Datum>, n: int)
    requires
        0 <= n <= s.len(),
    ensures
        models(s.subrange(0, n)) == models(s).take(n),
{
    assert(models(s.subrange(0, n)) =~= models(s).take(n));
}

/// Runs `block` on `env`; on success `env` holds the entries it had before,
/// with their new values, and the result is the value of the result
/// expression.
pub fn run_block(
    captures: &Vec<Datum>,
    arguments: usize,
    env: &mut Vec<Datum>,
    block: &Block,
    fuel: u64,
) -> (r: Result<Option<Datum>, EvalError>)
    ensures
        r is Ok ==> final(env)@.len() == old(env)@.len(),
        match spec_run_block(
            models(captures@),
            arguments as nat,
            models(old(env)@),
            *block,
            fuel as nat,
        ) {
            Ok((after, res)) => r matches Ok(x) && option_agrees(x, res) && models(final(env)@)
                == after,
            Err(e) => r == Err::<Option<Datum>, EvalError>(e),
        },
    decreases fuel, block,
{
    let ghost caps = models(captures@);
    let ghost env0 = models(env@);
    let ghost stmts = block.statements@;
    let len0 = env.len();
    let mut i: usize = 0;
    assert(stmts.subrange(0, stmts.len() as int) =~= stmts);
    while i < block.statements.len()
        invariant
            0 <= i <= block.statements.len(),
            stmts == block.statements@,
            env@.len() >= len0,
            len0 == old(env)@.len(),
            env0 == models(old(env)@),
            caps == models(captures@),
            spec_run_statements(caps, arguments as nat, env0, stmts, fuel as nat)
                == spec_run_statements(
                caps,
                arguments as nat,
                models(env@),
                stmts.subrange(i as int, stmts.len() as int),
                fuel as nat,
            ),
        decreases block.statements.len() - i,
    {
        let ghost before = models(env@);
        let ghost rest = stmts.subrange(i as int, stmts.len() as int);
        proof {
            assert(decreases_to!(block => block.statements));
            assert(decreases_to!(block.statements => block.statements@));
            assert(decreases_to!(block.statements@ => block.statements@[i as int]));
            assert(rest[0] == stmts[i as int]);
            assert(rest.subrange(1, rest.len() as int) =~= stmts.subrange(
                i + 1,
                stmts.len() as int,
            ));
        }
        match run_statement(captures, arguments, env, &block.statements[i], fuel) {
            Err(e) => {
                return Err(e);
            },
            Ok(()) => {},
        }
        i = i + 1;
    }
    proof {
        assert(stmts.subrange(stmts.len() as int, stmts.len() as int).len() == 0);
    }
    let ghost after = models(env@);
    let result = match &block.result {
        None => None,
        Some(e) => match eval_expr(captures, env, e) {
            Err(err) => {
                return Err(err);
            },
            Ok(v) => Some(v),
        },
    };
    let ghost full = env@;
    env.truncate(len0);
    proof {
        lemma_models_take(full, len0 as int);
    }
    Ok(result)
}

/// Runs `sequence[index] = value` on `env`.
fn run_assign_index(
    captures: &Vec<Datum>,
    env: &mut Vec<Datum>,
    sequence: &Expr,
    index: &Expr,
    value: &Expr,
) -> (r: Result<(), EvalError>)
    ensures
        r is Ok ==> final(env)@.len() == old(env)@.len(),
        match spec_assign_index(models(captures@), models(old(env)@), *sequence, *index, *value) {
            Ok(after) => r is Ok && models(final(env)@) == after,
            Err(e) => r == Err::<(), EvalError>(e),
        },
{
    match sequence {
            Expr::Argument(slot) => {
                let slot = *slot;
                if slot >= env.len() {
                    return Err(EvalError::ArgumentOutOfBounds(slot));
                }
                let i = match eval_expr(captures, env, index) {
                    Err(err) => {
                        return Err(err);
                    },
                    Ok(i) => i,
                };
                let v = match eval_expr(captures, env, value) {
                    Err(err) => {
                        return Err(err);
                    },
                    Ok(v) => v,
                };
                let k = match &i {
                    Datum::Scalar(Value::Usize(k)) => *k,
                    _ => {
                        return Err(EvalError::TypeMismatch);
                    },
                };
                assert(i@ == Val::Scalar(Value::Usize(k)));
                let ghost before = env@;
                let mut taken = Datum::Scalar(Value::Bool(false));
                env.set_and_swap(slot, &mut taken);
                let taken = match taken {
                    Datum::Scalar(x) => constant_datum(&x),
                    other => other,
                };
                assert(taken@ == before[slot as int]@);
                match taken {
                    Datum::Sequence(mut items) => {
                        proof {
                            lemma_items_model(items@);
                        }
                        if k >= items.len() {
                            return Err(EvalError::IndexOutOfBounds);
                        }
                        let ghost old_items = items@;
                        proof {
                            lemma_models_update(old_items, k as int, v);
                        }
                        items.set(k, v);
                        proof {
                            lemma_items_model(items@);
                            lemma_models_update(before, slot as int, Datum::Sequence(items));
                        }
                        env.set(slot, Datum::Sequence(items));
                        Ok(())
                    },
                    _ => Err(EvalError::TypeMismatch),
                }
            },
            _ => Err(EvalError::Unsupported),
        }
}

/// Runs one statement on `env`.
pub fn run_statement(
    captures: &Vec<Datum>,
    arguments: usize,
    env: &mut Vec<Datum>,
    statement: &Statement,
    fuel: u64,
) -> (r: Result<(), EvalError>)
    ensures
        r is Ok ==> final(env)@.len() >= old(env)@.len(),
        match spec_run_statement(
            models(captures@),
            arguments as nat,
            models(old(env)@),
            *statement,
            fuel as nat,
        ) {
            Ok(after) => r is Ok && models(final(env)@) == after,
            Err(e) => r == Err::<(), EvalError>(e),
        },
    decreases fuel, statement,
{
    match statement {
        Statement::Let { local, value, .. } => {
            if *local > env.len() || arguments != env.len() - *local {
                return Err(EvalError::InvalidLocal(*local));
            }
            match eval_expr(captures, env, value) {
                Err(err) => Err(err),
                Ok(v) => {
                    proof {
                        lemma_models_push(env@, v);
                    }
                    env.push(v);
                    Ok(())
                },
            }
        },
        Statement::Assign { local, value } => {
            if *local >= env.len() || arguments >= env.len() - *local {
                return Err(EvalError::InvalidLocal(*local));
            }
            match eval_expr(captures, env, value) {
                Err(err) => Err(err),
                Ok(v) => {
                    let slot = arguments + *local;
                    proof {
                        lemma_models_update(env@, slot as int, v);
                    }
                    env.set(slot, v);
                    Ok(())
                },
            }
        },
        Statement::AssignIndex { sequence, index, value } => run_assign_index(
            captures,
            env,
            sequence,
            index,
            value,
        ),
        Statement::While { condition, body } => run_while(
            captures,
            arguments,
            env,
            condition,
            body,
            fuel,
        ),
        Statement::For { local, start, end, inclusive, body, .. } => {
            if *local > env.len() || arguments != env.len() - *local {
                return Err(EvalError::InvalidLocal(*local));
            }
            let first = match eval_expr(captures, env, start) {
                Err(err) => {
                    return Err(err);
                },
                Ok(v) => v,
            };
            let last = match eval_expr(captures, env, end) {
                Err(err) => {
                    return Err(err);
                },
                Ok(v) => v,
            };
            run_for(captures, arguments, env, first, &last, *inclusive, body, fuel)
        },
    }
}


/// Runs `while condition { body }` on `env`.
pub fn run_while(
    captures: &Vec<Datum>,
    arguments: usize,
    env: &mut Vec<Datum>,
    condition: &Expr,
    body: &Block,
    fuel: u64,
) -> (r: Result<(), EvalError>)
    ensures
        r is Ok ==> final(env)@.len() == old(env)@.len(),
        match spec_run_while(
            models(captures@),
            arguments as nat,
            models(old(env)@),
            *condition,
            *body,
            fuel as nat,
        ) {
            Ok(after) => r is Ok && models(final(env)@) == after,
            Err(e) => r == Err::<(), EvalError>(e),
        },
    decreases fuel, body,
{
    let ghost caps = models(captures@);
    let ghost env0 = models(env@);
    let ghost len0 = env@.len();
    let mut f = fuel;
    loop
        invariant
            f <= fuel,
            env@.len() == len0,
            len0 == old(env)@.len(),
            env0 == models(old(env)@),
            caps == models(captures@),
            spec_run_while(caps, arguments as nat, env0, *condition, *body, fuel as nat)
                == spec_run_while(caps, arguments as nat, models(env@), *condition, *body, f as nat),
        decreases f,
    {
        if f == 0 {
            return Err(EvalError::OutOfFuel);
        }
        match eval_expr(captures, env, condition) {
            Err(err) => {
                return Err(err);
            },
            Ok(Datum::Scalar(Value::Bool(b))) => {
                if !b {
                    return Ok(());
                }
                match run_block(captures, arguments, env, body, f - 1) {
                    Err(e) => {
                        return Err(e);
                    },
                    Ok(Some(_)) => {
                        return Err(EvalError::UnexpectedResult);
                    },
                    Ok(None) => {},
                }
                f = f - 1;
            },
            Ok(_) => {
                return Err(EvalError::TypeMismatch);
            },
        }
    }
}

/// Whether a `for` loop runs its body once more, and whether the counter
/// has reached the end of the range.
fn check_counter(counter: &Datum, last: &Datum, inclusive: bool) -> (r: Result<(bool, bool), EvalError>)
    ensures
        match for_continues(counter@, last@, inclusive) {
            Err(e) => r == Err::<(bool, bool), EvalError>(e),
            Ok(go) => r matches Ok((g, l)) && g == go && (l <==> apply_binary(
                BinaryOp::Eq,
                counter@,
                last@,
            ) == Ok::<Val, EvalError>(Val::Scalar(Value::Bool(true)))),
        },
{
    let lt = apply_binary_datum(BinaryOp::Lt, counter, last);
    let eq = apply_binary_datum(BinaryOp::Eq, counter, last);
    match (lt, eq) {
        (Ok(Datum::Scalar(Value::Bool(a))), Ok(Datum::Scalar(Value::Bool(b)))) => Ok(
            (a || (inclusive && b), b),
        ),
        (Err(e), _) => Err(e),
        (_, Err(e)) => Err(e),
        _ => Err(EvalError::TypeMismatch),
    }
}

/// The counter of a `for` loop after `counter`.
fn next_counter(counter: &Datum) -> (r: Result<Datum, EvalError>)
    ensures
        eval_agrees(r, successor(counter@)),
{
    match counter {
        Datum::Scalar(x) => match one_like(x) {
            Some(one) => {
                let step = Datum::Scalar(one);
                assert(step@ == Val::Scalar(one));
                apply_binary_datum(BinaryOp::Add, counter, &step)
            },
            None => Err(EvalError::TypeMismatch),
        },
        _ => Err(EvalError::TypeMismatch),
    }
}

/// Runs a `for` loop over the range from `first` to `last` on `env`; the
/// counter is the local that follows the entries of `env`.
pub fn run_for(
    captures: &Vec<Datum>,
    arguments: usize,
    env: &mut Vec<Datum>,
    first: Datum,
    last: &Datum,
    inclusive: bool,
    body: &Block,
    fuel: u64,
) -> (r: Result<(), EvalError>)
    ensures
        r is Ok ==> final(env)@.len() == old(env)@.len(),
        match spec_run_for(
            models(captures@),
            arguments as nat,
            models(old(env)@),
            first@,
            last@,
            inclusive,
            *body,
            fuel as nat,
        ) {
            Ok(after) => r is Ok && models(final(env)@) == after,
            Err(e) => r == Err::<(), EvalError>(e),
        },
    decreases fuel, body,
{
    let ghost caps = models(captures@);
    let ghost env0 = models(env@);
    let ghost first0 = first@;
    let len0 = env.len();
    let mut counter = first;
    let mut f = fuel;
    loop
        invariant
            f <= fuel,
            env@.len() == len0,
            len0 == old(env)@.len(),
            env0 == models(old(env)@),
            first0 == first@,
            caps == models(captures@),
            spec_run_for(caps, arguments as nat, env0, first0, last@, inclusive, *body, fuel as nat)
                == spec_run_for(
                caps,
                arguments as nat,
                models(env@),
                counter@,
                last@,
                inclusive,
                *body,
                f as nat,
            ),
        decreases f,
    {
        if f == 0 {
            return Err(EvalError::OutOfFuel);
        }
        let (go, is_last) = match check_counter(&counter, last, inclusive) {
            Err(e) => {
                return Err(e);
            },
            Ok(pair) => pair,
        };
        if !go {
            return Ok(());
        }
        let ghost outer = models(env@);
        let pushed = clone_datum(&counter);
        proof {
            lemma_models_push(env@, pushed);
        }
        env.push(pushed);
        match run_block(captures, arguments, env, body, f - 1) {
            Err(e) => {
                return Err(e);
            },
            Ok(Some(_)) => {
                return Err(EvalError::UnexpectedResult);
            },
            Ok(None) => {},
        }
        let ghost full = env@;
        env.truncate(len0);
        proof {
            lemma_models_take(full, len0 as int);
        }
        if is_last {
            return Ok(());
        }
        match next_counter(&counter) {
            Err(e) => {
                return Err(e);
            },
            Ok(next) => {
                counter = next;
            },
        }
        f = f - 1;
    }
}

/// The result of a call: the value the closure returned and the values of
/// its arguments afterwards.
pub struct Outcome {
    pub result: Option<Datum>,
    pub arguments: Vec<Datum>,
}

/// Calls `closure` with the captured values `captures` and the arguments
/// `arguments`; loops may run at most `fuel` iterations deep.
pub fn call(closure: &Closure, captures: &Vec<Datum>, arguments: Vec<Datum>, fuel: u64) -> (r:
    Result<Outcome, EvalError>)
    ensures
        match spec_call(*closure, models(captures@), models(arguments@), fuel as nat) {
            Ok((res, after)) => r matches Ok(o) && option_agrees(o.result, res) && models(
                o.arguments@,
            ) == after,
            Err(e) => r matches Err(x) && x == e,
        },
{
    if captures.len() != closure.captures.len() || arguments.len() != closure.arguments.len() {
        return Err(EvalError::ArityMismatch);
    }
    let mut env = arguments;
    let count = env.len();
    match run_block(captures, count, &mut env, &closure.body, fuel) {
        Err(e) => Err(e),
        Ok(result) => Ok(Outcome { result, arguments: env }),
    }
}

} // verus!
