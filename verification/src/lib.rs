//! An intermediate representation for closures, its type checker, its
//! reference semantics and its lowering to LLVM.
pub mod decimal;
pub mod expr;
pub mod types;
pub mod typing;
pub mod value;
pub mod scalar;
pub mod datum;
pub mod interp;
pub mod program;
pub mod llvm;
pub mod lowering;
pub mod statement_lowering;
pub mod compiler;
pub mod laws;
pub mod scalar_laws;
pub mod frontend_laws;
pub mod mlir;
pub mod bytes;
pub mod text;
pub mod frontend;

pub use datum::Datum;
pub use expr::{Block, Closure, Expr, ExternalFunction, Intrinsic, Statement};
pub use program::{call, Outcome};
pub use scalar::EvalError;
pub use types::{FieldInfo, TypeInfo};
pub use typing::{BinaryOp, TypeError, UnaryOp};
pub use value::Value;
