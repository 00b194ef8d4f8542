//! Lowering of statements and blocks: locals live in stack slots, `while`
//! loops become a condition block, a body block and an exit block.
use vstd::prelude::*;
use inkwell::builder::Builder;
use inkwell::context::Context;
use inkwell::values::{FunctionValue, PointerValue};
use crate::llvm::{Built, Term, addressed};
use crate::expr::{Block, Statement};
use crate::llvm::{
    alloca, append_block, as_int, branch, conditional_branch, insert_block, position_at_end, store,
    terminator,
};
use crate::lowering::{
    LowerError, LoweredValue, Lowering, Materialized, Shape, backend, has_llvm_type, llvm_repr,
    llvm_type, lowered_agrees, lowered_ok, materialized, materialized_agrees, same_llvm_type, shape,
    slots_address, spec_lower, unexpected_value,
};
use crate::types::{TypeInfo, TypeModel, clone_type, type_models};

verus! {

/// The index of the next local: the number of slots past the arguments.
pub open spec fn next_local(slots: nat, argument_count: nat) -> nat {
    if slots >= argument_count {
        (slots - argument_count) as nat
    } else {
        0
    }
}

/// What lowering `block` yields: the shape of its result expression, which
/// it has exactly when a result type is expected.
pub open spec fn spec_lower_block(
    slots: nat,
    types: Seq<TypeModel>,
    argument_count: nat,
    block: Block,
    expected: Option<TypeModel>,
) -> Result<Option<Shape>, LowerError>
    decreases block,
{
    proof {
        assert(decreases_to!(block => block.statements));
        assert(decreases_to!(block.statements => block.statements@));
    }
    match spec_lower_statements(slots, types, argument_count, block.statements@) {
        Err(e) => Err(e),
        Ok((after_slots, after_types)) => match (block.result, expected) {
            (Some(e), Some(t)) => match spec_lower(after_slots, after_types, t, e) {
                Err(err) => Err(err),
                Ok(s) => Ok(Some(s)),
            },
            (Some(_), None) => Err(LowerError::UnexpectedResult),
            (None, Some(_)) => Err(LowerError::MissingResult),
            (None, None) => Ok(None),
        },
    }
}

/// Lowers `statements` in order: the slots and the types of the arguments
/// and locals afterwards.
pub open spec fn spec_lower_statements(
    slots: nat,
    types: Seq<TypeModel>,
    argument_count: nat,
    statements: Seq<Statement>,
) -> Result<(nat, Seq<TypeModel>), LowerError>
    decreases statements,
{
    if statements.len() == 0 {
        Ok((slots, types))
    } else {
        match spec_lower_statement(slots, types, argument_count, statements[0]) {
            Err(e) => Err(e),
            Ok((after_slots, after_types)) => spec_lower_statements(
                after_slots,
                after_types,
                argument_count,
                statements.subrange(1, statements.len() as int),
            ),
        }
    }
}

/// Lowers one statement. A `let` must introduce the next local, and gets a
/// slot of its declared type; an assignment stores into an existing slot; a
/// `while` condition must be a `bool`. Indexed assignments and `for` loops
/// have no lowering.
pub open spec fn spec_lower_statement(
    slots: nat,
    types: Seq<TypeModel>,
    argument_count: nat,
    statement: Statement,
) -> Result<(nat, Seq<TypeModel>), LowerError>
    decreases statement,
{
    match statement {
        Statement::Let { local, type_info, value, .. } => if local != next_local(
            slots,
            argument_count,
        ) {
            Err(LowerError::InvalidLocal(local))
        } else if llvm_repr(type_info@) is None {
            Err(LowerError::UnsupportedType)
        } else {
            match spec_lower(slots, types, type_info@, value) {
                Err(e) => Err(e),
                Ok(s) => match materialized(s) {
                    Err(e) => Err(e),
                    Ok(_) => Ok((slots + 1, types.push(type_info@))),
                },
            }
        },
        Statement::Assign { local, value } => if argument_count + local >= slots {
            Err(LowerError::LocalOutOfBounds(local))
        } else if argument_count + local >= types.len() {
            Err(LowerError::LocalTypeOutOfBounds(local))
        } else {
            match spec_lower(slots, types, types[argument_count + local], value) {
                Err(e) => Err(e),
                Ok(s) => match materialized(s) {
                    Err(e) => Err(e),
                    Ok(_) => Ok((slots, types)),
                },
            }
        },
        Statement::While { condition, body } => match spec_lower(
            slots,
            types,
            TypeModel::Bool,
            condition,
        ) {
            Err(e) => Err(e),
            Ok(s) => match materialized(s) {
                Err(e) => Err(e),
                Ok(t) => if !(t is Bool) {
                    Err(LowerError::ConditionNotBool)
                } else {
                    match spec_lower_block(slots, types, argument_count, body, None) {
                        Err(e) => Err(e),
                        Ok(_) => Ok((slots, types)),
                    }
                },
            },
        },
        _ => Err(LowerError::UnsupportedStatement),
    }
}

/// What lowering the body of a closure yields: the type of its loaded
/// result, whose LLVM type must be that of the declared return type.
pub open spec fn spec_lower_closure_block(
    types: Seq<TypeModel>,
    return_type: TypeModel,
    block: Block,
) -> Result<TypeModel, LowerError> {
    match spec_lower_block(types.len(), types, types.len(), block, Some(return_type)) {
        Err(e) => Err(e),
        Ok(None) => Err(LowerError::MissingResult),
        Ok(Some(s)) => match materialized(s) {
            Err(e) => Err(e),
            Ok(t) => if llvm_repr(return_type) is None {
                Err(LowerError::UnsupportedType)
            } else if llvm_repr(t) != llvm_repr(return_type) {
                Err(LowerError::ResultTypeMismatch)
            } else {
                Ok(t)
            },
        },
    }
}

/// The model of an optional type.
pub open spec fn optional_model(t: Option<&TypeInfo>) -> Option<TypeModel> {
    match t {
        Some(t) => Some(t@),
        None => None,
    }
}

/// An executable block lowering agrees with the specified one.
pub open spec fn block_agrees<'ctx>(
    r: Result<Option<LoweredValue<'ctx>>, LowerError>,
    s: Result<Option<Shape>, LowerError>,
) -> bool {
    match r {
        Ok(None) => s == Ok::<Option<Shape>, LowerError>(None),
        Ok(Some(v)) => s == Ok::<Option<Shape>, LowerError>(Some(shape(v))),
        Err(LowerError::Backend(_)) => true,
        Err(e) => s == Err::<Option<Shape>, LowerError>(e),
    }
}

/// An executable statement lowering agrees with the specified one, given
/// the slots and types afterwards.
pub open spec fn statement_agrees(
    r: Result<(), LowerError>,
    slots: nat,
    types: Seq<TypeModel>,
    s: Result<(nat, Seq<TypeModel>), LowerError>,
) -> bool {
    match r {
        Ok(()) => s == Ok::<(nat, Seq<TypeModel>), LowerError>((slots, types)),
        Err(LowerError::Backend(_)) => true,
        Err(e) => s == Err::<(nat, Seq<TypeModel>), LowerError>(e),
    }
}

/// One step of lowering a sequence of statements from position `k`.
proof fn lemma_statements_step(
    slots: nat,
    types: Seq<TypeModel>,
    argument_count: nat,
    statements: Seq<Statement>,
    k: int,
)
    requires
        0 <= k < statements.len(),
    ensures
        spec_lower_statements(
            slots,
            types,
            argument_count,
            statements.subrange(k, statements.len() as int),
        ) == match spec_lower_statement(slots, types, argument_count, statements[k]) {
            Err(e) => Err(e),
            Ok((after_slots, after_types)) => spec_lower_statements(
                after_slots,
                after_types,
                argument_count,
                statements.subrange(k + 1, statements.len() as int),
            ),
        },
{
    let rest = statements.subrange(k, statements.len() as int);
    assert(rest[0] == statements[k]);
    assert(rest.subrange(1, rest.len() as int) =~= statements.subrange(k + 1, statements.len() as int));
}

/// A new slot that addresses a value of the LLVM type of its type keeps the
/// slots addressing theirs.
proof fn lemma_slots_push<'ctx>(
    slots: Seq<Built<PointerValue<'ctx>>>,
    types: Seq<TypeModel>,
    slot: Built<PointerValue<'ctx>>,
    t: TypeModel,
)
    requires
        slots.len() == types.len(),
        slots_address(slots, types),
        llvm_repr(t) is Some ==> addressed(slot.term()) == llvm_repr(t),
    ensures
        slots_address(slots.push(slot), types.push(t)),
{
    assert forall|i: int|
        #![trigger slots.push(slot)[i], types.push(t)[i]]
        0 <= i < slots.push(slot).len() && i < types.push(t).len() && llvm_repr(types.push(t)[i])
            is Some implies addressed(slots.push(slot)[i].term()) == llvm_repr(types.push(t)[i]) by {
        if i < slots.len() {
            assert(slots.push(slot)[i] == slots[i]);
            assert(types.push(t)[i] == types[i]);
        }
    }
}

/// Lowers the body of a closure whose arguments are at `arguments` and have
/// types `argument_types`: the loaded value of its result.
pub(crate) fn lower_closure_block<'ctx>(
    context: &'ctx Context,
    builder: &Builder<'ctx>,
    function: Built<FunctionValue<'ctx>>,
    arguments: &[Built<PointerValue<'ctx>>],
    argument_types: &[TypeInfo],
    return_type: &TypeInfo,
    block: &Block,
) -> (r: Result<Materialized<'ctx>, LowerError>)
    requires
        arguments@.len() == argument_types@.len(),
        slots_address(arguments@, type_models(argument_types@)),
    ensures
        materialized_agrees(
            r,
            spec_lower_closure_block(type_models(argument_types@), return_type@, *block),
        ),
{
    let lowering = Lowering;
    let value = match lower_block(
        context,
        builder,
        function,
        arguments,
        argument_types,
        argument_types.len(),
        block,
        Some(return_type),
    ) {
        Ok(Some(value)) => value,
        Ok(None) => {
            return Err(LowerError::MissingResult);
        },
        Err(e) => {
            return Err(e);
        },
    };
    let value = match lowering.materialize_value(context, builder, value) {
        Ok(m) => m,
        Err(e) => {
            return Err(e);
        },
    };
    if !has_llvm_type(return_type) {
        return Err(LowerError::UnsupportedType);
    }
    if !same_llvm_type(&value.type_info, return_type) {
        return Err(LowerError::ResultTypeMismatch);
    }
    Ok(value)
}

/// Lowers `block`, whose arguments and locals so far are at `arguments` and
/// have types `argument_types`, the first `argument_count` of them being the
/// arguments of the closure.
pub(crate) fn lower_block<'ctx>(
    context: &'ctx Context,
    builder: &Builder<'ctx>,
    function: Built<FunctionValue<'ctx>>,
    arguments: &[Built<PointerValue<'ctx>>],
    argument_types: &[TypeInfo],
    argument_count: usize,
    block: &Block,
    expected_result_type: Option<&TypeInfo>,
) -> (r: Result<Option<LoweredValue<'ctx>>, LowerError>)
    requires
        arguments@.len() == argument_types@.len(),
        slots_address(arguments@, type_models(argument_types@)),
    ensures
        r matches Ok(Some(v)) ==> lowered_ok(v),
        block_agrees(
            r,
            spec_lower_block(
                arguments@.len(),
                type_models(argument_types@),
                argument_count as nat,
                *block,
                optional_model(expected_result_type),
            ),
        ),
    decreases block,
{
    let lowering = Lowering;
    let mut pointers: Vec<Built<PointerValue<'ctx>>> = Vec::new();
    let mut i: usize = 0;
    while i < arguments.len()
        invariant
            0 <= i <= arguments@.len(),
            pointers@ == arguments@.subrange(0, i as int),
        decreases arguments@.len() - i,
    {
        pointers.push(arguments[i]);
        i = i + 1;
    }
    let mut types: Vec<TypeInfo> = Vec::new();
    let mut j: usize = 0;
    while j < argument_types.len()
        invariant
            0 <= j <= argument_types@.len(),
            type_models(types@) == type_models(argument_types@).subrange(0, j as int),
        decreases argument_types@.len() - j,
    {
        let ghost before = types@;
        types.push(clone_type(&argument_types[j]));
        proof {
            assert(type_models(types@) =~= type_models(before).push(argument_types@[j as int]@));
            assert(type_models(types@) =~= type_models(argument_types@).subrange(0, j + 1));
        }
        j = j + 1;
    }
    proof {
        assert(type_models(argument_types@).subrange(0, argument_types@.len() as int)
            =~= type_models(argument_types@));
        assert(pointers@ =~= arguments@);
        assert(type_models(types@) == type_models(argument_types@));
    }
    let ghost slots0 = arguments@.len();
    let ghost types0 = type_models(argument_types@);
    let ghost stmts = block.statements@;
    let mut k: usize = 0;
    assert(stmts.subrange(0, stmts.len() as int) =~= stmts);
    while k < block.statements.len()
        invariant
            0 <= k <= block.statements@.len(),
            stmts == block.statements@,
            slots0 == arguments@.len(),
            types0 == type_models(argument_types@),
            pointers@.len() == types@.len(),
            slots_address(pointers@, type_models(types@)),
            spec_lower_statements(slots0, types0, argument_count as nat, stmts)
                == spec_lower_statements(
                pointers@.len(),
                type_models(types@),
                argument_count as nat,
                stmts.subrange(k as int, stmts.len() as int),
            ),
        decreases block.statements@.len() - k,
    {
        proof {
            assert(decreases_to!(block => block.statements));
            assert(decreases_to!(block.statements => block.statements@));
            assert(decreases_to!(block.statements@ => block.statements@[k as int]));
            lemma_statements_step(
                pointers@.len(),
                type_models(types@),
                argument_count as nat,
                stmts,
                k as int,
            );
        }
        match lower_statement(
            context,
            builder,
            function,
            &mut pointers,
            &mut types,
            argument_count,
            &block.statements[k],
        ) {
            Err(e) => {
                return Err(e);
            },
            Ok(()) => {},
        }
        k = k + 1;
    }
    proof {
        assert(stmts.subrange(stmts.len() as int, stmts.len() as int).len() == 0);
    }
    match (&block.result, expected_result_type) {
        (Some(expr), Some(type_info)) => match lowering.lower_expr(
            context,
            builder,
            function,
            pointers.as_slice(),
            types.as_slice(),
            type_info,
            expr,
        ) {
            Ok(value) => Ok(Some(value)),
            Err(e) => Err(e),
        },
        (Some(_), None) => Err(LowerError::UnexpectedResult),
        (None, Some(_)) => Err(LowerError::MissingResult),
        (None, None) => Ok(None),
    }
}

/// Lowers one statement; a `let` adds the slot and the type of its local.
fn lower_statement<'ctx>(
    context: &'ctx Context,
    builder: &Builder<'ctx>,
    function: Built<FunctionValue<'ctx>>,
    pointers: &mut Vec<Built<PointerValue<'ctx>>>,
    types: &mut Vec<TypeInfo>,
    argument_count: usize,
    statement: &Statement,
) -> (r: Result<(), LowerError>)
    requires
        old(pointers)@.len() == old(types)@.len(),
        slots_address(old(pointers)@, type_models(old(types)@)),
    ensures
        final(pointers)@.len() == final(types)@.len(),
        slots_address(final(pointers)@, type_models(final(types)@)),
        r is Err || !(statement is Let) ==> final(pointers)@ == old(pointers)@ && type_models(
            final(types)@,
        ) == type_models(old(types)@),
        statement matches Statement::Let { type_info, .. } ==> (r is Ok ==> final(pointers)@.drop_last()
            == old(pointers)@ && final(pointers)@.last().term() == Term::Slot(
            llvm_repr(type_info@)->0,
        ) && type_models(final(types)@) == type_models(old(types)@).push(type_info@)),
        statement_agrees(
            r,
            final(pointers)@.len(),
            type_models(final(types)@),
            spec_lower_statement(
                old(pointers)@.len(),
                type_models(old(types)@),
                argument_count as nat,
                *statement,
            ),
        ),
    decreases statement,
{
    let lowering = Lowering;
    match statement {
        Statement::Let { local, type_info, value, .. } => {
            let expected_local = if pointers.len() >= argument_count {
                pointers.len() - argument_count
            } else {
                0
            };
            if *local != expected_local {
                return Err(LowerError::InvalidLocal(*local));
            }
            let slot_type = match llvm_type(context, type_info) {
                Ok(built) => built,
                Err(e) => {
                    return Err(e);
                },
            };
            let pointer = match alloca(builder, &slot_type) {
                Ok(pointer) => pointer,
                Err(e) => {
                    return Err(backend(e));
                },
            };
            let value = match lowering.lower_expr(
                context,
                builder,
                function,
                pointers.as_slice(),
                types.as_slice(),
                type_info,
                value,
            ) {
                Ok(v) => v,
                Err(e) => {
                    return Err(e);
                },
            };
            let value = match lowering.materialize_value(context, builder, value) {
                Ok(m) => m,
                Err(e) => {
                    return Err(e);
                },
            };
            if let Err(e) = store(builder, &pointer, &value.value) {
                return Err(backend(e));
            }
            let ghost before = types@;
            let ghost slots_before = pointers@;
            pointers.push(pointer);
            types.push(clone_type(type_info));
            proof {
                assert(type_models(types@) =~= type_models(before).push(type_info@));
                lemma_slots_push(slots_before, type_models(before), pointer, type_info@);
            }
            Ok(())
        },
        Statement::Assign { local, value } => {
            if *local >= pointers.len() || argument_count >= pointers.len() - *local {
                return Err(LowerError::LocalOutOfBounds(*local));
            }
            let index = argument_count + *local;
            if index >= types.len() {
                return Err(LowerError::LocalTypeOutOfBounds(*local));
            }
            let pointer = pointers[index];
            let value = match lowering.lower_expr(
                context,
                builder,
                function,
                pointers.as_slice(),
                types.as_slice(),
                &types[index],
                value,
            ) {
                Ok(v) => v,
                Err(e) => {
                    return Err(e);
                },
            };
            let value = match lowering.materialize_value(context, builder, value) {
                Ok(m) => m,
                Err(e) => {
                    return Err(e);
                },
            };
            match store(builder, &pointer, &value.value) {
                Ok(()) => Ok(()),
                Err(e) => Err(backend(e)),
            }
        },
        Statement::While { condition, body } => {
            let condition_block = append_block(context, &function, "while_condition");
            let body_block = append_block(context, &function, "while_body");
            let exit_block = append_block(context, &function, "while_exit");
            if let Err(e) = branch(builder, condition_block) {
                return Err(backend(e));
            }
            position_at_end(builder, condition_block);
            let bool_type = TypeInfo::Bool;
            let condition = match lowering.lower_expr(
                context,
                builder,
                function,
                pointers.as_slice(),
                types.as_slice(),
                &bool_type,
                condition,
            ) {
                Ok(v) => v,
                Err(e) => {
                    return Err(e);
                },
            };
            let condition = match lowering.materialize_value(context, builder, condition) {
                Ok(m) => m,
                Err(e) => {
                    return Err(e);
                },
            };
            if !condition.type_info.is_bool() {
                return Err(LowerError::ConditionNotBool);
            }
            let condition = match as_int(&condition.value) {
                Some(v) => v,
                None => {
                    return Err(unexpected_value());
                },
            };
            if let Err(e) = conditional_branch(builder, &condition, body_block, exit_block) {
                return Err(backend(e));
            }
            position_at_end(builder, body_block);
            match lower_block(
                context,
                builder,
                function,
                pointers.as_slice(),
                types.as_slice(),
                argument_count,
                body,
                None,
            ) {
                Ok(_) => {},
                Err(e) => {
                    return Err(e);
                },
            }
            let body_end = match insert_block(builder) {
                Some(block) => block,
                None => {
                    return Err(LowerError::Backend("missing while body block".to_string()));
                },
            };
            if terminator(body_end).is_none() {
                if let Err(e) = branch(builder, condition_block) {
                    return Err(backend(e));
                }
            }
            position_at_end(builder, exit_block);
            Ok(())
        },
        _ => Err(LowerError::UnsupportedStatement),
    }
}

} // verus!
