//! The type checker of the closure IR.
use vstd::prelude::*;
use crate::types::{type_models, TypeInfo, TypeModel, FieldInfo, FieldModel, type_model, fields_model, lemma_fields_model, same_type, clone_type};
use crate::value::Value;
use crate::expr::{Expr, Intrinsic};
use crate::decimal::{decimal_string, spec_decimal};

verus! {

/// A binary operator, as the lowering distinguishes them.
#[derive(Debug, Clone, Copy, PartialEq, Eq)]
pub enum BinaryOp {
    Add,
    Sub,
    Mul,
    Div,
    Rem,
    Eq,
    Ne,
    Lt,
    Le,
    Gt,
    Ge,
    And,
    Or,
    BitAnd,
    BitOr,
    BitXor,
    Shl,
    Shr,
}

/// A unary operator.
#[derive(Debug, Clone, Copy, PartialEq, Eq)]
pub enum UnaryOp {
    Not,
    Neg,
}

/// Why an expression has no type.
#[derive(Debug, PartialEq, Eq)]
pub enum TypeError {
    ArgumentOutOfBounds(usize),
    CaptureOutOfBounds(usize),
    EmptyArrayConstant,
    CastSourceMismatch,
    IndexNotUsize,
    NotIndexable,
    LenNotIndexable,
    FieldOnNonStruct(String),
    FieldNotFound(String),
    StructLiteralNotStruct,
    StructFieldCount { given: usize, expected: usize },
    StructFieldNotFound(String),
    StructFieldType(String),
    IntrinsicArity { intrinsic: Intrinsic, expected: usize, given: usize },
    IntrinsicNotFloat(Intrinsic),
    IntrinsicMismatch(Intrinsic),
    IfElseMismatch,
    ComparisonMismatch,
    LogicalNotBool,
    BinaryMismatch,
    UnsupportedOperand,
}

/// The number of arguments an intrinsic takes.
pub open spec fn intrinsic_arity(intrinsic: Intrinsic) -> nat {
    match intrinsic {
        Intrinsic::Min | Intrinsic::Max | Intrinsic::Pow => 2,
        _ => 1,
    }
}

/// The type of a constant.
pub open spec fn spec_constant_type(v: Value) -> Result<TypeModel, TypeError>
    decreases v,
{
    match v {
        Value::F32(_) => Ok(TypeModel::F32),
        Value::F64(_) => Ok(TypeModel::F64),
        Value::I8(_) => Ok(TypeModel::I8),
        Value::I16(_) => Ok(TypeModel::I16),
        Value::I32(_) => Ok(TypeModel::I32),
        Value::I64(_) => Ok(TypeModel::I64),
        Value::I128(_) => Ok(TypeModel::I128),
        Value::U8(_) => Ok(TypeModel::U8),
        Value::U16(_) => Ok(TypeModel::U16),
        Value::U32(_) => Ok(TypeModel::U32),
        Value::U64(_) => Ok(TypeModel::U64),
        Value::U128(_) => Ok(TypeModel::U128),
        Value::Usize(_) => Ok(TypeModel::Usize),
        Value::Bool(_) => Ok(TypeModel::Bool),
        Value::Array(values) => {
            if values@.len() == 0 {
                Err(TypeError::EmptyArrayConstant)
            } else {
                proof {
                    assert(decreases_to!(values => values@));
                }
                match spec_constant_type(values@[0]) {
                    Ok(element) => Ok(
                        TypeModel::Array { element: Box::new(element), length: values@.len() },
                    ),
                    Err(e) => Err(e),
                }
            }
        },
    }
}

/// The type of the first field called `name`, if any.
pub open spec fn spec_find_field(fields: Seq<FieldModel>, name: Seq<char>) -> Option<TypeModel>
    decreases fields.len(),
{
    if fields.len() == 0 {
        None
    } else if fields[0].name == name {
        Some(fields[0].type_info)
    } else {
        spec_find_field(fields.subrange(1, fields.len() as int), name)
    }
}

/// The element type of an array or slice model.
pub open spec fn model_element(t: TypeModel) -> Option<TypeModel> {
    match t {
        TypeModel::Array { element, .. } => Some(*element),
        TypeModel::Slice { element } => Some(*element),
        _ => None,
    }
}

/// The type of `e`, when the captured values have the types `captures` and
/// the arguments and locals the types `arguments`; or the first error met,
/// sub-expressions being examined from left to right.
pub open spec fn spec_expression_type(
    captures: Seq<TypeModel>,
    arguments: Seq<TypeModel>,
    e: Expr,
) -> Result<TypeModel, TypeError>
    decreases e, 0nat,
{
    match e {
        Expr::Argument(index) => if index < arguments.len() {
            Ok(arguments[index as int])
        } else {
            Err(TypeError::ArgumentOutOfBounds(index))
        },
        Expr::Capture(index) => if index < captures.len() {
            Ok(captures[index as int])
        } else {
            Err(TypeError::CaptureOutOfBounds(index))
        },
        Expr::Constant(value) => spec_constant_type(value),
        Expr::Cast { expr, source_type, target_type } => match spec_expression_type(
            captures,
            arguments,
            *expr,
        ) {
            Err(err) => Err(err),
            Ok(actual) => if actual != source_type@ {
                Err(TypeError::CastSourceMismatch)
            } else {
                Ok(target_type@)
            },
        },
        Expr::Index { sequence, index } => match spec_expression_type(
            captures,
            arguments,
            *sequence,
        ) {
            Err(err) => Err(err),
            Ok(st) => match spec_expression_type(captures, arguments, *index) {
                Err(err) => Err(err),
                Ok(it) => if it != TypeModel::Usize {
                    Err(TypeError::IndexNotUsize)
                } else {
                    match model_element(st) {
                        Some(element) => Ok(element),
                        None => Err(TypeError::NotIndexable),
                    }
                },
            },
        },
        Expr::Len { sequence } => match spec_expression_type(captures, arguments, *sequence) {
            Err(err) => Err(err),
            Ok(st) => if model_element(st) is Some {
                Ok(TypeModel::Usize)
            } else {
                Err(TypeError::LenNotIndexable)
            },
        },
        Expr::Field { object, name } => match spec_expression_type(captures, arguments, *object) {
            Err(err) => Err(err),
            Ok(TypeModel::Struct { fields, .. }) => match spec_find_field(fields, name@) {
                Some(t) => Ok(t),
                None => Err(TypeError::FieldNotFound(name)),
            },
            Ok(_) => Err(TypeError::FieldOnNonStruct(name)),
        },
        Expr::Struct { type_info, fields } => {
            proof {
                assert(decreases_to!(fields => fields@));
            }
            spec_struct_type(captures, arguments, type_info, fields@)
        },
        Expr::Tuple { elements } => {
            proof {
                assert(decreases_to!(elements => elements@));
            }
            match spec_tuple_fields(captures, arguments, elements@) {
                Err(err) => Err(err),
                Ok(fields) => Ok(TypeModel::Struct { name: seq!['t', 'u', 'p', 'l', 'e'], fields }),
            }
        },
        Expr::Intrinsic { intrinsic, arguments: operands } => {
            if operands@.len() != intrinsic_arity(intrinsic) {
                Err(
                    TypeError::IntrinsicArity {
                        intrinsic,
                        expected: intrinsic_arity(intrinsic) as usize,
                        given: operands@.len() as usize,
                    },
                )
            } else {
                proof {
                    assert(decreases_to!(operands => operands@));
                }
                match spec_expression_type(captures, arguments, operands@[0]) {
                    Err(err) => Err(err),
                    Ok(first) => if !(first is F32 || first is F64) {
                        Err(TypeError::IntrinsicNotFloat(intrinsic))
                    } else if operands@.len() < 2 {
                        Ok(first)
                    } else {
                        match spec_expression_type(captures, arguments, operands@[1]) {
                            Err(err) => Err(err),
                            Ok(second) => if second != first {
                                Err(TypeError::IntrinsicMismatch(intrinsic))
                            } else {
                                Ok(first)
                            },
                        }
                    },
                }
            }
        },
        Expr::ExternalCall { return_type, .. } => Ok(return_type@),
        Expr::Add { lhs, .. } => spec_expression_type(captures, arguments, *lhs),
        Expr::Sub { lhs, .. } => spec_expression_type(captures, arguments, *lhs),
        Expr::Mul { lhs, .. } => spec_expression_type(captures, arguments, *lhs),
        Expr::Div { lhs, .. } => spec_expression_type(captures, arguments, *lhs),
        Expr::Rem { lhs, .. } => spec_expression_type(captures, arguments, *lhs),
        Expr::BitAnd { lhs, .. } => spec_expression_type(captures, arguments, *lhs),
        Expr::BitOr { lhs, .. } => spec_expression_type(captures, arguments, *lhs),
        Expr::BitXor { lhs, .. } => spec_expression_type(captures, arguments, *lhs),
        Expr::Shl { lhs, .. } => spec_expression_type(captures, arguments, *lhs),
        Expr::Shr { lhs, .. } => spec_expression_type(captures, arguments, *lhs),
        Expr::Neg { operand } => spec_expression_type(captures, arguments, *operand),
        Expr::Eq { .. } => Ok(TypeModel::Bool),
        Expr::Ne { .. } => Ok(TypeModel::Bool),
        Expr::Lt { .. } => Ok(TypeModel::Bool),
        Expr::Le { .. } => Ok(TypeModel::Bool),
        Expr::Gt { .. } => Ok(TypeModel::Bool),
        Expr::Ge { .. } => Ok(TypeModel::Bool),
        Expr::And { .. } => Ok(TypeModel::Bool),
        Expr::Or { .. } => Ok(TypeModel::Bool),
        Expr::Not { .. } => Ok(TypeModel::Bool),
        Expr::IfElse { then_branch, else_branch, .. } => match spec_expression_type(
            captures,
            arguments,
            *then_branch,
        ) {
            Err(err) => Err(err),
            Ok(t) => match spec_expression_type(captures, arguments, *else_branch) {
                Err(err) => Err(err),
                Ok(f) => if t != f {
                    Err(TypeError::IfElseMismatch)
                } else {
                    Ok(t)
                },
            },
        },
    }
}

/// The type of a struct literal of type `type_info` whose fields are given
/// by `fields`.
pub open spec fn spec_struct_type(
    captures: Seq<TypeModel>,
    arguments: Seq<TypeModel>,
    type_info: TypeInfo,
    fields: Seq<(String, Expr)>,
) -> Result<TypeModel, TypeError>
    decreases fields, 2nat,
{
    match type_info@ {
        TypeModel::Struct { fields: expected, .. } => if fields.len() != expected.len() {
            Err(
                TypeError::StructFieldCount {
                    given: fields.len() as usize,
                    expected: expected.len() as usize,
                },
            )
        } else {
            match spec_struct_literal(captures, arguments, fields, expected) {
                Err(err) => Err(err),
                Ok(_) => Ok(type_info@),
            }
        },
        _ => Err(TypeError::StructLiteralNotStruct),
    }
}

/// Checks the fields of a struct literal, in order, against the fields that
/// its type declares.
pub open spec fn spec_struct_literal(
    captures: Seq<TypeModel>,
    arguments: Seq<TypeModel>,
    fields: Seq<(String, Expr)>,
    expected: Seq<FieldModel>,
) -> Result<(), TypeError>
    decreases fields, 1nat,
{
    if fields.len() == 0 {
        Ok(())
    } else {
        match spec_find_field(expected, fields[0].0@) {
            None => Err(TypeError::StructFieldNotFound(fields[0].0)),
            Some(declared) => match spec_expression_type(captures, arguments, fields[0].1) {
                Err(err) => Err(err),
                Ok(actual) => if actual != declared {
                    Err(TypeError::StructFieldType(fields[0].0))
                } else {
                    spec_struct_literal(
                        captures,
                        arguments,
                        fields.subrange(1, fields.len() as int),
                        expected,
                    )
                },
            },
        }
    }
}

/// The fields of the type of a tuple: one per element, named by its
/// position in decimal.
pub open spec fn spec_tuple_fields(
    captures: Seq<TypeModel>,
    arguments: Seq<TypeModel>,
    elements: Seq<Expr>,
) -> Result<Seq<FieldModel>, TypeError>
    decreases elements, 1nat,
{
    if elements.len() == 0 {
        Ok(Seq::empty())
    } else {
        match spec_tuple_fields(captures, arguments, elements.drop_last()) {
            Err(err) => Err(err),
            Ok(prefix) => match spec_expression_type(captures, arguments, elements.last()) {
                Err(err) => Err(err),
                Ok(t) => Ok(
                    prefix.push(
                        FieldModel { name: spec_decimal((elements.len() - 1) as nat), type_info: t },
                    ),
                ),
            },
        }
    }
}


/// An executable result agrees with the specified one: the same error, or a
/// type with the specified model.
pub open spec fn agrees(res: Result<TypeInfo, TypeError>, spec: Result<TypeModel, TypeError>) -> bool {
    match (res, spec) {
        (Ok(t), Ok(m)) => t@ == m,
        (Err(e), Err(f)) => e == f,
        _ => false,
    }
}

proof fn lemma_find_field(fields: Seq<FieldInfo>, name: Seq<char>, i: int)
    requires
        0 <= i <= fields.len(),
        forall|j: int| 0 <= j < i ==> #[trigger] fields[j].name@ != name,
        i < fields.len() ==> fields[i].name@ == name,
    ensures
        spec_find_field(fields_model(fields), name) == (if i < fields.len() {
            Some(fields[i].type_info@)
        } else {
            None::<TypeModel>
        }),
    decreases fields.len(),
{
    lemma_fields_model(fields);
    if fields.len() > 0 {
        let rest = fields.subrange(1, fields.len() as int);
        lemma_fields_model(rest);
        assert(fields_model(fields).subrange(1, fields.len() as int) =~= fields_model(rest));
        if i > 0 {
            assert forall|j: int| 0 <= j < i - 1 implies #[trigger] rest[j].name@ != name by {
                assert(rest[j] == fields[j + 1]);
            }
            lemma_find_field(rest, name, i - 1);
        }
    }
}

/// The position of the first field called `name`.
pub(crate) fn find_field(fields: &Vec<FieldInfo>, name: &String) -> (r: Option<usize>)
    ensures
        r matches Some(i) ==> i < fields@.len(),
        r matches Some(i) ==> fields_model(fields@)[i as int].name == name@ && forall|j: int|
            0 <= j < i ==> #[trigger] fields_model(fields@)[j].name != name@,
        spec_find_field(fields_model(fields@), name@) == (match r {
            Some(i) => Some(fields@[i as int].type_info@),
            None => None::<TypeModel>,
        }),
{
    proof {
        lemma_fields_model(fields@);
    }
    let mut i: usize = 0;
    while i < fields.len()
        invariant
            0 <= i <= fields@.len(),
            forall|j: int| 0 <= j < i ==> #[trigger] fields@[j].name@ != name@,
            forall|j: int| 0 <= j < fields@.len() ==> #[trigger] fields_model(fields@)[j] == fields@[j]@,
        decreases fields@.len() - i,
    {
        if fields[i].name == *name {
            proof {
                lemma_find_field(fields@, name@, i as int);
            }
            return Some(i);
        }
        i = i + 1;
    }
    proof {
        lemma_find_field(fields@, name@, i as int);
    }
    None
}

/// The type of a constant.
pub fn constant_type(value: &Value) -> (res: Result<TypeInfo, TypeError>)
    ensures
        agrees(res, spec_constant_type(*value)),
    decreases value,
{
    match value {
        Value::F32(_) => Ok(TypeInfo::F32),
        Value::F64(_) => Ok(TypeInfo::F64),
        Value::I8(_) => Ok(TypeInfo::I8),
        Value::I16(_) => Ok(TypeInfo::I16),
        Value::I32(_) => Ok(TypeInfo::I32),
        Value::I64(_) => Ok(TypeInfo::I64),
        Value::I128(_) => Ok(TypeInfo::I128),
        Value::U8(_) => Ok(TypeInfo::U8),
        Value::U16(_) => Ok(TypeInfo::U16),
        Value::U32(_) => Ok(TypeInfo::U32),
        Value::U64(_) => Ok(TypeInfo::U64),
        Value::U128(_) => Ok(TypeInfo::U128),
        Value::Usize(_) => Ok(TypeInfo::Usize),
        Value::Bool(_) => Ok(TypeInfo::Bool),
        Value::Array(values) => {
            if values.len() == 0 {
                return Err(TypeError::EmptyArrayConstant);
            }
            proof {
                assert(decreases_to!(*value => (*value)->Array_0));
                assert(decreases_to!(*values => values@));
            }
            match constant_type(&values[0]) {
                Err(e) => Err(e),
                Ok(element) => Ok(TypeInfo::Array { element: Box::new(element), length: values.len() }),
            }
        },
    }
}

proof fn lemma_tuple_error_extends(
    captures: Seq<TypeModel>,
    arguments: Seq<TypeModel>,
    elements: Seq<Expr>,
    i: int,
    j: int,
)
    requires
        0 <= i <= j <= elements.len(),
        spec_tuple_fields(captures, arguments, elements.subrange(0, i)) is Err,
    ensures
        spec_tuple_fields(captures, arguments, elements.subrange(0, j)) == spec_tuple_fields(
            captures,
            arguments,
            elements.subrange(0, i),
        ),
    decreases j - i,
{
    if j > i {
        lemma_tuple_error_extends(captures, arguments, elements, i, j - 1);
        assert(elements.subrange(0, j).drop_last() =~= elements.subrange(0, j - 1));
    }
}

proof fn lemma_struct_literal_step(
    captures: Seq<TypeModel>,
    arguments: Seq<TypeModel>,
    fields: Seq<(String, Expr)>,
    expected: Seq<FieldModel>,
    i: int,
)
    requires
        0 <= i < fields.len(),
    ensures
        spec_struct_literal(captures, arguments, fields.subrange(i, fields.len() as int), expected)
            == (match spec_find_field(expected, fields[i].0@) {
            None => Err(TypeError::StructFieldNotFound(fields[i].0)),
            Some(declared) => match spec_expression_type(captures, arguments, fields[i].1) {
                Err(err) => Err(err),
                Ok(actual) => if actual != declared {
                    Err(TypeError::StructFieldType(fields[i].0))
                } else {
                    spec_struct_literal(
                        captures,
                        arguments,
                        fields.subrange(i + 1, fields.len() as int),
                        expected,
                    )
                },
            },
        }),
{
    let rest = fields.subrange(i, fields.len() as int);
    assert(rest[0] == fields[i]);
    assert(rest.subrange(1, rest.len() as int) =~= fields.subrange(i + 1, fields.len() as int));
}

/// The type of `expr` when the captured values have the types
/// `capture_types` and the arguments and locals the types `argument_types`.
pub fn expression_type_with_captures(
    capture_types: &[TypeInfo],
    argument_types: &[TypeInfo],
    expr: &Expr,
) -> (res: Result<TypeInfo, TypeError>)
    ensures
        agrees(res, spec_expression_type(type_models(capture_types@), type_models(argument_types@), *expr)),
    decreases expr,
{
    match expr {
        Expr::Argument(index) => {
            if *index < argument_types.len() {
                Ok(clone_type(&argument_types[*index]))
            } else {
                Err(TypeError::ArgumentOutOfBounds(*index))
            }
        },
        Expr::Capture(index) => {
            if *index < capture_types.len() {
                Ok(clone_type(&capture_types[*index]))
            } else {
                Err(TypeError::CaptureOutOfBounds(*index))
            }
        },
        Expr::Constant(value) => constant_type(value),
        Expr::Cast { expr: inner, source_type, target_type } => {
            let actual = expression_type_with_captures(capture_types, argument_types, inner)?;
            if !same_type(&actual, source_type) {
                return Err(TypeError::CastSourceMismatch);
            }
            Ok(clone_type(target_type))
        },
        Expr::Index { sequence, index } => {
            let st = expression_type_with_captures(capture_types, argument_types, sequence)?;
            let it = expression_type_with_captures(capture_types, argument_types, index)?;
            if !it.is_usize() {
                return Err(TypeError::IndexNotUsize);
            }
            match st.indexed_element_type() {
                Some(element) => Ok(clone_type(element)),
                None => Err(TypeError::NotIndexable),
            }
        },
        Expr::Len { sequence } => {
            let st = expression_type_with_captures(capture_types, argument_types, sequence)?;
            if !st.is_indexable() {
                return Err(TypeError::LenNotIndexable);
            }
            Ok(TypeInfo::Usize)
        },
        Expr::Field { object, name } => {
            let ot = expression_type_with_captures(capture_types, argument_types, object)?;
            match ot {
                TypeInfo::Struct { fields, .. } => match find_field(&fields, name) {
                    Some(i) => Ok(clone_type(&fields[i].type_info)),
                    None => Err(TypeError::FieldNotFound(name.clone())),
                },
                _ => Err(TypeError::FieldOnNonStruct(name.clone())),
            }
        },
        Expr::Struct { type_info, fields } => {
            proof {
                assert(decreases_to!(*expr => (*expr)->Struct_fields));
            }
            struct_literal_type(capture_types, argument_types, type_info, fields)
        },
        Expr::Tuple { elements } => {
            proof {
                assert(decreases_to!(*expr => (*expr)->elements));
            }
            tuple_type(capture_types, argument_types, elements)
        },
        Expr::Intrinsic { intrinsic, arguments: operands } => {
            let arity: usize = match intrinsic {
                Intrinsic::Min | Intrinsic::Max | Intrinsic::Pow => 2,
                _ => 1,
            };
            if operands.len() != arity {
                return Err(
                    TypeError::IntrinsicArity { intrinsic: *intrinsic, expected: arity, given: operands.len() },
                );
            }
            proof {
                assert(decreases_to!(*expr => (*expr)->Intrinsic_arguments));
                assert(decreases_to!(*operands => operands@));
                assert(decreases_to!(operands@ => operands@[0]));
            }
            let first = expression_type_with_captures(capture_types, argument_types, &operands[0])?;
            if !first.is_float() {
                return Err(TypeError::IntrinsicNotFloat(*intrinsic));
            }
            if operands.len() >= 2 {
                proof {
                    assert(decreases_to!(operands@ => operands@[1]));
                }
                let second = expression_type_with_captures(
                    capture_types,
                    argument_types,
                    &operands[1],
                )?;
                if !same_type(&second, &first) {
                    return Err(TypeError::IntrinsicMismatch(*intrinsic));
                }
            }
            Ok(first)
        },
        Expr::ExternalCall { return_type, .. } => Ok(clone_type(return_type)),
        Expr::Add { lhs, .. } => expression_type_with_captures(capture_types, argument_types, lhs),
        Expr::Sub { lhs, .. } => expression_type_with_captures(capture_types, argument_types, lhs),
        Expr::Mul { lhs, .. } => expression_type_with_captures(capture_types, argument_types, lhs),
        Expr::Div { lhs, .. } => expression_type_with_captures(capture_types, argument_types, lhs),
        Expr::Rem { lhs, .. } => expression_type_with_captures(capture_types, argument_types, lhs),
        Expr::BitAnd { lhs, .. } => expression_type_with_captures(capture_types, argument_types, lhs),
        Expr::BitOr { lhs, .. } => expression_type_with_captures(capture_types, argument_types, lhs),
        Expr::BitXor { lhs, .. } => expression_type_with_captures(capture_types, argument_types, lhs),
        Expr::Shl { lhs, .. } => expression_type_with_captures(capture_types, argument_types, lhs),
        Expr::Shr { lhs, .. } => expression_type_with_captures(capture_types, argument_types, lhs),
        Expr::Neg { operand } => expression_type_with_captures(capture_types, argument_types, operand),
        Expr::Eq { .. } | Expr::Ne { .. } | Expr::Lt { .. } | Expr::Le { .. } | Expr::Gt { .. }
        | Expr::Ge { .. } | Expr::And { .. } | Expr::Or { .. } | Expr::Not { .. } => Ok(
            TypeInfo::Bool,
        ),
        Expr::IfElse { then_branch, else_branch, .. } => {
            let t = expression_type_with_captures(capture_types, argument_types, then_branch)?;
            let e = expression_type_with_captures(capture_types, argument_types, else_branch)?;
            if !same_type(&t, &e) {
                return Err(TypeError::IfElseMismatch);
            }
            Ok(t)
        },
    }
}

proof fn lemma_fields_model_push(fields: Seq<FieldInfo>, field: FieldInfo)
    ensures
        fields_model(fields.push(field)) == fields_model(fields).push(field@),
{
    lemma_fields_model(fields);
    lemma_fields_model(fields.push(field));
    assert(fields_model(fields.push(field)) =~= fields_model(fields).push(field@));
}

/// The type of a struct literal.
fn struct_literal_type(
    capture_types: &[TypeInfo],
    argument_types: &[TypeInfo],
    type_info: &TypeInfo,
    fields: &Vec<(String, Expr)>,
) -> (res: Result<TypeInfo, TypeError>)
    ensures
        agrees(res, spec_struct_type(type_models(capture_types@), type_models(argument_types@), *type_info, fields@)),
    decreases fields,
{
    let expected = match type_info {
        TypeInfo::Struct { fields: declared, .. } => declared,
        _ => return Err(TypeError::StructLiteralNotStruct),
    };
    proof {
        lemma_fields_model(expected@);
    }
    if fields.len() != expected.len() {
        return Err(TypeError::StructFieldCount { given: fields.len(), expected: expected.len() });
    }
    let ghost lits = fields@;
    let ghost declared = fields_model(expected@);
    assert(lits.subrange(0, lits.len() as int) =~= lits);
    let mut i: usize = 0;
    while i < fields.len()
        invariant
            0 <= i <= fields@.len(),
            lits == fields@,
            type_info@ == (TypeModel::Struct { name: type_info->name@, fields: declared }),
            declared == fields_model(expected@),
            declared.len() == lits.len(),
            spec_struct_literal(type_models(capture_types@), type_models(argument_types@), lits, declared) == spec_struct_literal(
                type_models(capture_types@),
                type_models(argument_types@),
                lits.subrange(i as int, lits.len() as int),
                declared,
            ),
        decreases fields@.len() - i,
    {
        proof {
            lemma_struct_literal_step(type_models(capture_types@), type_models(argument_types@), lits, declared, i as int);
            assert(decreases_to!(*fields => fields@));
            assert(decreases_to!(fields@ => fields@[i as int]));
            assert(decreases_to!(fields@[i as int] => fields@[i as int].1));
        }
        let position = match find_field(expected, &fields[i].0) {
            Some(position) => position,
            None => return Err(TypeError::StructFieldNotFound(fields[i].0.clone())),
        };
        let actual = expression_type_with_captures(capture_types, argument_types, &fields[i].1)?;
        if !same_type(&actual, &expected[position].type_info) {
            return Err(TypeError::StructFieldType(fields[i].0.clone()));
        }
        i = i + 1;
    }
    proof {
        assert(lits.subrange(i as int, lits.len() as int) =~= Seq::<(String, Expr)>::empty());
    }
    Ok(clone_type(type_info))
}

/// The type of a tuple: a struct called `tuple` whose fields are named by
/// position.
fn tuple_type(capture_types: &[TypeInfo], argument_types: &[TypeInfo], elements: &Vec<Expr>) -> (res:
    Result<TypeInfo, TypeError>)
    ensures
        agrees(
            res,
            match spec_tuple_fields(type_models(capture_types@), type_models(argument_types@), elements@) {
                Err(err) => Err(err),
                Ok(fields) => Ok(TypeModel::Struct { name: seq!['t', 'u', 'p', 'l', 'e'], fields }),
            },
        ),
    decreases elements,
{
    let mut out: Vec<FieldInfo> = Vec::new();
    let ghost elems = elements@;
    let mut i: usize = 0;
    assert(elems.subrange(0, 0) =~= Seq::<Expr>::empty());
    while i < elements.len()
        invariant
            0 <= i <= elems.len(),
            elems == elements@,
            spec_tuple_fields(type_models(capture_types@), type_models(argument_types@), elems.subrange(0, i as int)) == Ok::<
                Seq<FieldModel>,
                TypeError,
            >(fields_model(out@)),
        decreases elems.len() - i,
    {
        proof {
            assert(decreases_to!(*elements => elements@));
            assert(decreases_to!(elements@ => elements@[i as int]));
            assert(elems.subrange(0, i + 1).drop_last() =~= elems.subrange(0, i as int));
            assert(elems.subrange(0, i + 1).last() == elems[i as int]);
        }
        let t = match expression_type_with_captures(capture_types, argument_types, &elements[i]) {
            Ok(t) => t,
            Err(e) => {
                proof {
                    lemma_tuple_error_extends(
                        type_models(capture_types@),
                        type_models(argument_types@),
                        elems,
                        i + 1,
                        elems.len() as int,
                    );
                    assert(elems.subrange(0, elems.len() as int) =~= elems);
                }
                return Err(e);
            },
        };
        let field = FieldInfo { name: decimal_string(i), type_info: t };
        proof {
            lemma_fields_model_push(out@, field);
        }
        out.push(field);
        i = i + 1;
    }
    proof {
        assert(elems.subrange(0, elems.len() as int) =~= elems);
        reveal_strlit("tuple");
    }
    let name = "tuple".to_string();
    proof {
        broadcast use vstd::string::to_string_from_display_ensures_for_str;
        assert(name@ == seq!['t', 'u', 'p', 'l', 'e']);
    }
    Ok(TypeInfo::Struct { name, fields: out })
}

/// The type of `expr` in a closure without captured values.
pub fn expression_type(argument_types: &[TypeInfo], expr: &Expr) -> (res: Result<TypeInfo, TypeError>)
    ensures
        agrees(res, spec_expression_type(Seq::empty(), type_models(argument_types@), *expr)),
{
    let no_captures: Vec<TypeInfo> = Vec::new();
    proof {
        assert(no_captures@ =~= Seq::<TypeInfo>::empty());
        assert(type_models(no_captures@) =~= Seq::<TypeModel>::empty());
    }
    expression_type_with_captures(no_captures.as_slice(), argument_types, expr)
}


/// The type at which the operands of a binary operator are combined.
pub open spec fn spec_binary_operand_type(
    arguments: Seq<TypeModel>,
    lhs: Expr,
    rhs: Expr,
    operation: BinaryOp,
) -> Result<TypeModel, TypeError> {
    match spec_expression_type(Seq::empty(), arguments, lhs) {
        Err(err) => Err(err),
        Ok(lt) => match spec_expression_type(Seq::empty(), arguments, rhs) {
            Err(err) => Err(err),
            Ok(rt) => match operation {
                BinaryOp::Eq | BinaryOp::Ne | BinaryOp::Lt | BinaryOp::Le | BinaryOp::Gt
                | BinaryOp::Ge => if lt != rt {
                    Err(TypeError::ComparisonMismatch)
                } else {
                    Ok(lt)
                },
                BinaryOp::And | BinaryOp::Or => if !(lt is Bool) || !(rt is Bool) {
                    Err(TypeError::LogicalNotBool)
                } else {
                    Ok(TypeModel::Bool)
                },
                _ => if lt != rt {
                    Err(TypeError::BinaryMismatch)
                } else if !arithmetic_operand(lt) {
                    Err(TypeError::UnsupportedOperand)
                } else {
                    Ok(lt)
                },
            },
        },
    }
}

/// The operand types of the arithmetic, bitwise and shift operators: the
/// numbers and `bool`.
pub open spec fn arithmetic_operand(t: TypeModel) -> bool {
    !(t is Array || t is Slice || t is Struct)
}

/// The type at which the operands `lhs` and `rhs` of `operation` are
/// combined: both operands must have the same type, and the operands of
/// `&&` and `||` must be `bool`. `expected_type` is the type the context
/// asks for; it does not change the result.
pub fn binary_operand_type(
    argument_types: &[TypeInfo],
    lhs: &Expr,
    rhs: &Expr,
    expected_type: &TypeInfo,
    operation: &BinaryOp,
) -> (res: Result<TypeInfo, TypeError>)
    ensures
        agrees(res, spec_binary_operand_type(type_models(argument_types@), *lhs, *rhs, *operation)),
{
    let lt = expression_type(argument_types, lhs)?;
    let rt = expression_type(argument_types, rhs)?;
    match operation {
        BinaryOp::Eq | BinaryOp::Ne | BinaryOp::Lt | BinaryOp::Le | BinaryOp::Gt | BinaryOp::Ge => {
            if !same_type(&lt, &rt) {
                return Err(TypeError::ComparisonMismatch);
            }
            Ok(lt)
        },
        BinaryOp::And | BinaryOp::Or => {
            if !lt.is_bool() || !rt.is_bool() {
                return Err(TypeError::LogicalNotBool);
            }
            Ok(TypeInfo::Bool)
        },
        _ => {
            if !same_type(&lt, &rt) {
                return Err(TypeError::BinaryMismatch);
            }
            if !lt.is_numeric() && !lt.is_bool() {
                return Err(TypeError::UnsupportedOperand);
            }
            Ok(lt)
        },
    }
}

} // verus!
