# closure_ir

An intermediate representation for Rust closures, with a type checker, a
reference interpreter, and a lowering to LLVM through Inkwell, verified
with Verus.

## Layout

- `src/types.rs`, `src/expr.rs`, `src/value.rs`: type descriptions, the
  expression and statement IR, and scalar values.
- `src/typing.rs`: the type checker for expressions.
- `src/scalar.rs`, `src/datum.rs`, `src/interp.rs`, `src/program.rs`: the
  reference semantics of expressions, statements and whole closures, with
  fuel-bounded loops.
- `src/llvm.rs`: the trusted boundary to Inkwell (declared types and
  wrappers with their contracts).
- `src/lowering.rs`, `src/statement_lowering.rs`, `src/compiler.rs`: the
  lowering of expressions, blocks and closures to LLVM functions, specified
  by the type of the value each produces and by the errors it reports.
- `src/mlir.rs`: the text builder for the MLIR form of a closure.
- `src/bytes.rs`: the little-endian byte layout of scalar values.
- `src/frontend.rs`: the decisions that turn closure syntax into IR
  (intrinsic names, integer literals, paths to arguments, captures and
  locals).
- `src/laws.rs`: properties that span several functions.
- `app/`: the parts that need unsafe code or serde: calling a JIT-compiled
  function and the JSON form of closures.
- `tests/`: scenarios run on the reference semantics, each closure also
  lowered to LLVM (which must succeed; the JIT-compiled code itself needs
  unsafe calls and is not run there), and tests of the lowering decisions.
