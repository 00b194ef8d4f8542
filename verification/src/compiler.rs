//! Compilation of a closure to a JIT-compiled LLVM function
//! `void compiled_closure(i8* arguments, i8* result)`: the arguments are read
//! from a struct with one field per argument, and the result is stored at
//! the second address.
use vstd::prelude::*;
use inkwell::builder::Builder;
use inkwell::context::Context;
use inkwell::execution_engine::ExecutionEngine;
use inkwell::module::Module;
use inkwell::types::BasicTypeEnum;
use inkwell::values::PointerValue;
use crate::expr::Closure;
use crate::llvm::{
    add_function, append_block, byte_pointer_type, cast_pointer, create_builder, create_jit,
    create_module, pointer_param, position_at_end, return_void, store, struct_gep, struct_type,
    addressed, type_repr, type_reprs, verify_function, void_function_type, Built, Term,
};
use crate::lowering::{LlvmRepr, LowerError, backend, llvm_repr, llvm_type, slots_address};
use crate::statement_lowering::{lower_closure_block, spec_lower_closure_block};
use crate::types::{TypeInfo, TypeModel, clone_type, type_models};

verus! {

/// Failures that LLVM decides: of the builder, of the function verifier, or
/// of the function's declaration.
pub open spec fn outside_failure(e: LowerError) -> bool {
    e is Backend || e is InvalidFunction || e is MissingParameter
}

/// Some argument type has no LLVM type, or there are more arguments than
/// an LLVM struct has fields.
pub open spec fn unsupported_argument(types: Seq<TypeModel>) -> bool {
    types.len() > u32::MAX || exists|i: int| 0 <= i < types.len() && #[trigger] llvm_repr(types[i]) is None
}

/// The LLVM types of the arguments, where each has one.
pub open spec fn argument_reprs(types: Seq<TypeModel>) -> Seq<LlvmRepr> {
    types.map_values(|t: TypeModel| llvm_repr(t)->0)
}

/// What compiling `closure` yields: the type of its result, or why it
/// cannot be compiled.
pub open spec fn spec_compile(closure: Closure) -> Result<TypeModel, LowerError> {
    let arguments = type_models(closure.arguments@);
    if unsupported_argument(arguments) {
        Err(LowerError::UnsupportedType)
    } else {
        spec_lower_closure_block(arguments, closure.return_type@, closure.body)
    }
}

/// An executable compilation agrees with the specified one: it succeeds when
/// the specification does, and fails with the specified error, unless LLVM
/// fails.
pub open spec fn compile_agrees<T>(r: Result<T, LowerError>, s: Result<TypeModel, LowerError>) -> bool {
    match s {
        Ok(_) => r is Ok || (r matches Err(e) && outside_failure(e)),
        Err(e) => r matches Err(x) && (x == e || outside_failure(x)),
    }
}

/// A closure compiled to native code: the JIT engine that holds it, the
/// name of its function, and its signature.
pub struct CompiledClosure<'ctx> {
    pub engine: ExecutionEngine<'ctx>,
    pub function_name: String,
    pub arguments: Vec<TypeInfo>,
    pub return_type: TypeInfo,
}

/// Compiles closures into functions of the LLVM context it holds.
pub struct Compiler<'ctx> {
    pub context: &'ctx Context,
}

/// A copy of a sequence of types.
pub fn clone_types(types: &Vec<TypeInfo>) -> (r: Vec<TypeInfo>)
    ensures
        type_models(r@) == type_models(types@),
{
    let mut out: Vec<TypeInfo> = Vec::new();
    let mut i: usize = 0;
    while i < types.len()
        invariant
            0 <= i <= types@.len(),
            type_models(out@) == type_models(types@).subrange(0, i as int),
        decreases types@.len() - i,
    {
        let ghost before = out@;
        out.push(clone_type(&types[i]));
        proof {
            assert(type_models(out@) =~= type_models(before).push(types@[i as int]@));
            assert(type_models(out@) =~= type_models(types@).subrange(0, i + 1));
        }
        i = i + 1;
    }
    proof {
        assert(type_models(types@).subrange(0, types@.len() as int) =~= type_models(types@));
    }
    out
}

impl<'ctx> Compiler<'ctx> {
    pub fn new(context: &'ctx Context) -> (r: Self)
        ensures
            r.context == context,
    {
        Compiler { context }
    }

    /// Compiles `closure` into a new module and a JIT engine for it.
    pub fn compile(&self, closure: &Closure) -> (r: Result<CompiledClosure<'ctx>, LowerError>)
        ensures
            compile_agrees(r, spec_compile(*closure)),
            r matches Ok(compiled) ==> type_models(compiled.arguments@) == type_models(
                closure.arguments@,
            ) && compiled.return_type@ == closure.return_type@,
            r matches Ok(compiled) ==> compiled.function_name@ == "compiled_closure"@,
            unsupported_argument(type_models(closure.arguments@)) ==> (r matches Err(e) && (e
                == LowerError::UnsupportedType || e is MissingParameter)),
    {
        let context = self.context;
        let module = create_module(context);
        let function_name = "compiled_closure";
        match self.generate_function(context, &module, function_name, closure) {
            Ok(()) => {},
            Err(e) => {
                return Err(e);
            },
        }
        let engine = match create_jit(&module) {
            Ok(engine) => engine,
            Err(message) => {
                return Err(LowerError::Backend(message));
            },
        };
        Ok(
            CompiledClosure {
                engine,
                function_name: function_name.to_string(),
                arguments: clone_types(&closure.arguments),
                return_type: clone_type(&closure.return_type),
            },
        )
    }

    /// Adds the function of `closure` to `module`: the addresses of the
    /// arguments, the lowered body, the store of its result and the return.
    fn generate_function(
        &self,
        context: &'ctx Context,
        module: &Module<'ctx>,
        function_name: &str,
        closure: &Closure,
    ) -> (r: Result<(), LowerError>)
        ensures
            compile_agrees(r, spec_compile(*closure)),
            unsupported_argument(type_models(closure.arguments@)) ==> (r matches Err(e) && (e
                == LowerError::UnsupportedType || e is MissingParameter)),
    {
        let byte_pointer = byte_pointer_type(context);
        let mut parameters: Vec<Built<BasicTypeEnum<'ctx>>> = Vec::new();
        parameters.push(byte_pointer);
        parameters.push(byte_pointer);
        let signature = void_function_type(context, &parameters);
        let function = add_function(module, function_name, &signature);
        let entry = append_block(context, &function, "entry");
        let builder = create_builder(context);
        position_at_end(&builder, entry);
        let argument_pointer = match pointer_param(&function, 0) {
            Some(pointer) => pointer,
            None => {
                return Err(LowerError::MissingParameter);
            },
        };
        let result_pointer = match pointer_param(&function, 1) {
            Some(pointer) => pointer,
            None => {
                return Err(LowerError::MissingParameter);
            },
        };
        let arguments = match self.build_argument_pointers(
            context,
            &builder,
            &argument_pointer,
            closure.arguments.as_slice(),
        ) {
            Ok(arguments) => arguments,
            Err(e) => {
                return Err(e);
            },
        };
        let value = match lower_closure_block(
            context,
            &builder,
            function,
            arguments.as_slice(),
            closure.arguments.as_slice(),
            &closure.return_type,
            &closure.body,
        ) {
            Ok(value) => value,
            Err(e) => {
                return Err(e);
            },
        };
        let result_type = match llvm_type(context, &closure.return_type) {
            Ok(built) => built,
            Err(e) => {
                return Err(e);
            },
        };
        let typed_result = match cast_pointer(&builder, &result_pointer, &result_type) {
            Ok(pointer) => pointer,
            Err(e) => {
                return Err(backend(e));
            },
        };
        if let Err(e) = store(&builder, &typed_result, &value.value) {
            return Err(backend(e));
        }
        if let Err(e) = return_void(&builder) {
            return Err(backend(e));
        }
        if verify_function(&function) {
            Ok(())
        } else {
            Err(LowerError::InvalidFunction)
        }
    }

    /// The address of each argument in the struct of all of them, one field
    /// per argument, at `argument_pointer`: argument `j` is at field `j`.
    fn build_argument_pointers(
        &self,
        context: &'ctx Context,
        builder: &Builder<'ctx>,
        argument_pointer: &Built<PointerValue<'ctx>>,
        argument_types: &[TypeInfo],
    ) -> (r: Result<Vec<Built<PointerValue<'ctx>>>, LowerError>)
        ensures
            r matches Ok(pointers) ==> pointers@.len() == argument_types@.len()
                && !unsupported_argument(type_models(argument_types@)) && slots_address(
                pointers@,
                type_models(argument_types@),
            ),
            r matches Ok(pointers) ==> argument_types@.len() > 0 ==> forall|j: int|
                0 <= j < pointers@.len() ==> (#[trigger] pointers@[j]).term() == Term::Field(
                    Box::new(
                        Term::Cast(
                            Box::new(argument_pointer.term()),
                            LlvmRepr::Struct(argument_reprs(type_models(argument_types@))),
                        ),
                    ),
                    j as nat,
                ),
            unsupported_argument(type_models(argument_types@)) ==> r == Err::<
                Vec<Built<PointerValue<'ctx>>>,
                LowerError,
            >(LowerError::UnsupportedType),
            r matches Err(e) ==> e is Backend || (e == LowerError::UnsupportedType
                && unsupported_argument(type_models(argument_types@))),
            argument_types@.len() == 0 ==> (r matches Ok(pointers) && pointers@.len() == 0),
    {
        if argument_types.len() > 0xffff_ffff {
            return Err(LowerError::UnsupportedType);
        }
        if argument_types.len() == 0 {
            return Ok(Vec::new());
        }
        let ghost models = type_models(argument_types@);
        let mut field_types: Vec<Built<BasicTypeEnum<'ctx>>> = Vec::new();
        let mut i: usize = 0;
        while i < argument_types.len()
            invariant
                0 <= i <= argument_types@.len(),
                argument_types@.len() <= u32::MAX,
                models == type_models(argument_types@),
                forall|k: int| 0 <= k < i ==> #[trigger] llvm_repr(models[k]) is Some,
                field_types@.len() == i,
                forall|k: int| 0 <= k < i ==> (#[trigger] field_types@[k]).term() is Type,
                forall|k: int|
                    0 <= k < i ==> Some(type_repr((#[trigger] field_types@[k]).term())) == llvm_repr(
                        models[k],
                    ),
            decreases argument_types@.len() - i,
        {
            match llvm_type(context, &argument_types[i]) {
                Ok(built) => field_types.push(built),
                Err(e) => {
                    assert(llvm_repr(models[i as int]) is None);
                    return Err(e);
                },
            }
            i = i + 1;
        }
        assert(!unsupported_argument(models));
        let tuple_type = struct_type(context, &field_types);
        proof {
            assert(type_reprs(field_types@) =~= argument_reprs(models));
        }
        let typed = match cast_pointer(builder, argument_pointer, &tuple_type) {
            Ok(pointer) => pointer,
            Err(e) => {
                return Err(backend(e));
            },
        };
        let mut result: Vec<Built<PointerValue<'ctx>>> = Vec::new();
        let mut j: usize = 0;
        while j < argument_types.len()
            invariant
                0 <= j <= argument_types@.len(),
                argument_types@.len() <= u32::MAX,
                result@.len() == j,
                models == type_models(argument_types@),
                !unsupported_argument(models),
                typed.term() == Term::Cast(Box::new(argument_pointer.term()), LlvmRepr::Struct(argument_reprs(models))),
                forall|k: int| 0 <= k < j ==> (#[trigger] result@[k]).term() == Term::Field(
                    Box::new(typed.term()),
                    k as nat,
                ),
            decreases argument_types@.len() - j,
        {
            let position = j as u32;
            match struct_gep(builder, &typed, position) {
                Ok(pointer) => result.push(pointer),
                Err(e) => {
                    return Err(backend(e));
                },
            }
            j = j + 1;
        }
        proof {
            assert forall|k: int|
                #![trigger result@[k], models[k]]
                0 <= k < result@.len() && k < models.len() && llvm_repr(models[k]) is Some implies addressed(
                result@[k].term(),
            ) == llvm_repr(models[k]) by {
                assert(argument_reprs(models)[k] == llvm_repr(models[k])->0);
                assert(addressed(typed.term()) == Some(LlvmRepr::Struct(argument_reprs(models))));
                assert(result@[k].term() == Term::Field(Box::new(typed.term()), k as nat));
            }
        }
        Ok(result)
    }
}

} // verus!
