//! The expression, statement and closure IR.
use vstd::prelude::*;
use crate::types::TypeInfo;
use crate::value::Value;
use vstd::std_specs::convert::IntoSpec;

verus! {

/// Floating-point intrinsics that a closure may call.
#[derive(Debug, Clone, Copy, PartialEq, Eq)]
pub enum Intrinsic {
    Sqrt,
    Abs,
    Min,
    Max,
    Floor,
    Ceil,
    Round,
    Sin,
    Cos,
    Tan,
    Exp,
    Log,
    Pow,
}

/// An expression of a closure body. Arguments are numbered first, then the
/// locals that `let` and `for` introduce, in the order of introduction.
#[derive(Debug, PartialEq)]
pub enum Expr {
    Argument(usize),
    Capture(usize),
    Constant(Value),
    Cast { expr: Box<Expr>, source_type: TypeInfo, target_type: TypeInfo },
    Index { sequence: Box<Expr>, index: Box<Expr> },
    Len { sequence: Box<Expr> },
    Field { object: Box<Expr>, name: String },
    Struct { type_info: TypeInfo, fields: Vec<(String, Expr)> },
    Tuple { elements: Vec<Expr> },
    Intrinsic { intrinsic: Intrinsic, arguments: Vec<Expr> },
    ExternalCall { function: String, arguments: Vec<Expr>, return_type: TypeInfo },
    Add { lhs: Box<Expr>, rhs: Box<Expr> },
    Sub { lhs: Box<Expr>, rhs: Box<Expr> },
    Mul { lhs: Box<Expr>, rhs: Box<Expr> },
    Div { lhs: Box<Expr>, rhs: Box<Expr> },
    Rem { lhs: Box<Expr>, rhs: Box<Expr> },
    Eq { lhs: Box<Expr>, rhs: Box<Expr> },
    Ne { lhs: Box<Expr>, rhs: Box<Expr> },
    Lt { lhs: Box<Expr>, rhs: Box<Expr> },
    Le { lhs: Box<Expr>, rhs: Box<Expr> },
    Gt { lhs: Box<Expr>, rhs: Box<Expr> },
    Ge { lhs: Box<Expr>, rhs: Box<Expr> },
    And { lhs: Box<Expr>, rhs: Box<Expr> },
    Or { lhs: Box<Expr>, rhs: Box<Expr> },
    BitAnd { lhs: Box<Expr>, rhs: Box<Expr> },
    BitOr { lhs: Box<Expr>, rhs: Box<Expr> },
    BitXor { lhs: Box<Expr>, rhs: Box<Expr> },
    Shl { lhs: Box<Expr>, rhs: Box<Expr> },
    Shr { lhs: Box<Expr>, rhs: Box<Expr> },
    Not { operand: Box<Expr> },
    Neg { operand: Box<Expr> },
    IfElse { condition: Box<Expr>, then_branch: Box<Expr>, else_branch: Box<Expr> },
}

/// A statement of a closure body.
#[derive(Debug, PartialEq)]
pub enum Statement {
    Let { local: usize, type_info: TypeInfo, value: Expr, mutable: bool },
    Assign { local: usize, value: Expr },
    AssignIndex { sequence: Expr, index: Expr, value: Expr },
    While { condition: Expr, body: Block },
    For {
        local: usize,
        type_info: TypeInfo,
        start: Expr,
        end: Expr,
        inclusive: bool,
        body: Block,
    },
}

/// A sequence of statements and an optional result expression.
#[derive(Debug, PartialEq)]
pub struct Block {
    pub statements: Vec<Statement>,
    pub result: Option<Expr>,
}

impl Block {
    /// A block that only computes `result`.
    pub fn expression(result: Expr) -> (r: Self)
        ensures
            r.statements@.len() == 0,
            r.result == Some(result),
    {
        Block { statements: Vec::new(), result: Some(result) }
    }

    /// A block of statements without a result.
    pub fn statements(statements: Vec<Statement>) -> (r: Self)
        ensures
            r.statements == statements,
            r.result.is_none(),
    {
        Block { statements, result: None }
    }
}

/// A closure: the types of its captured values and arguments, its return
/// type, its body and the external functions that the body may call.
#[derive(Debug, PartialEq)]
pub struct Closure {
    pub captures: Vec<TypeInfo>,
    pub arguments: Vec<TypeInfo>,
    pub return_type: TypeInfo,
    pub body: Block,
    pub external_functions: Vec<ExternalFunction>,
}

/// The signature of a function defined outside the closure.
#[derive(Debug, PartialEq, Eq)]
pub struct ExternalFunction {
    pub name: String,
    pub arguments: Vec<TypeInfo>,
    pub return_type: TypeInfo,
}

impl ExternalFunction {
    pub fn new<N: Into<String>>(name: N, arguments: Vec<TypeInfo>, return_type: TypeInfo) -> (r:
        Self)
        ensures
            N::obeys_into_spec() ==> r.name == name.into_spec(),
            r.arguments == arguments,
            r.return_type == return_type,
    {
        ExternalFunction { name: name.into(), arguments, return_type }
    }
}

} // verus!
