//! Trusted declarations of the LLVM bindings (the `inkwell` crate) that the
//! lowering calls. Each wrapper makes one call into the bindings and converts
//! its arguments and result; Verus believes what these declarations say and
//! does not read their bodies.
//!
//! The types, functions and values that the lowering builds travel as
//! [`Built`] values: the LLVM object together with a [`Term`] that describes
//! how it was built (which instruction on which operands, which constant,
//! which address). Only the wrappers of this module make a `Built`, so a
//! term always describes the object it comes with. None of the wrappers
//! states what the emitted LLVM code computes: that is left to LLVM.
use vstd::prelude::*;
use inkwell::basic_block::BasicBlock;
use inkwell::builder::{Builder, BuilderError};
use inkwell::context::Context;
use inkwell::execution_engine::ExecutionEngine;
use inkwell::module::Module;
use inkwell::types::{BasicMetadataTypeEnum, BasicType, BasicTypeEnum, FunctionType};
use inkwell::values::{
    BasicValueEnum, FloatValue, FunctionValue, InstructionValue, IntValue, PhiValue, PointerValue,
};
use inkwell::{AddressSpace, FloatPredicate, IntPredicate, OptimizationLevel};
use crate::lowering::{ConstantPlan, FloatInstruction, IntInstruction, LlvmRepr, ScalarKind};

verus! {

#[verifier::external_type_specification]
#[verifier::external_body]
pub struct ExContext(Context);

#[verifier::external_type_specification]
#[verifier::external_body]
pub struct ExModule<'ctx>(Module<'ctx>);

#[verifier::external_type_specification]
#[verifier::external_body]
pub struct ExBuilder<'ctx>(Builder<'ctx>);

#[verifier::external_type_specification]
#[verifier::external_body]
pub struct ExBuilderError(BuilderError);

#[verifier::external_type_specification]
#[verifier::external_body]
pub struct ExExecutionEngine<'ctx>(ExecutionEngine<'ctx>);

#[verifier::external_type_specification]
#[verifier::external_body]
pub struct ExBasicBlock<'ctx>(BasicBlock<'ctx>);

#[verifier::external_type_specification]
#[verifier::external_body]
pub struct ExBasicTypeEnum<'ctx>(BasicTypeEnum<'ctx>);

#[verifier::external_type_specification]
#[verifier::external_body]
pub struct ExBasicValueEnum<'ctx>(BasicValueEnum<'ctx>);

#[verifier::external_type_specification]
#[verifier::external_body]
pub struct ExIntValue<'ctx>(IntValue<'ctx>);

#[verifier::external_type_specification]
#[verifier::external_body]
pub struct ExFloatValue<'ctx>(FloatValue<'ctx>);

#[verifier::external_type_specification]
#[verifier::external_body]
pub struct ExPointerValue<'ctx>(PointerValue<'ctx>);

#[verifier::external_type_specification]
#[verifier::external_body]
pub struct ExFunctionValue<'ctx>(FunctionValue<'ctx>);

#[verifier::external_type_specification]
#[verifier::external_body]
pub struct ExFunctionType<'ctx>(FunctionType<'ctx>);

#[verifier::external_type_specification]
#[verifier::external_body]
pub struct ExPhiValue<'ctx>(PhiValue<'ctx>);

#[verifier::external_type_specification]
#[verifier::external_body]
pub struct ExInstructionValue<'ctx>(InstructionValue<'ctx>);

/// The predicate of an integer comparison.
#[derive(Debug, Clone, Copy, PartialEq, Eq)]
pub enum IntCompare {
    Eq,
    Ne,
    Ult,
    Ule,
    Ugt,
    Uge,
    Slt,
    Sle,
    Sgt,
    Sge,
}

/// The predicate of a floating-point comparison: ordered, but for `Une`,
/// which also holds when either operand is NaN.
#[derive(Debug, Clone, Copy, PartialEq, Eq)]
pub enum FloatCompare {
    Oeq,
    Une,
    Olt,
    Ole,
    Ogt,
    Oge,
}

/// How an LLVM type, function or value was built.
pub ghost enum Term {
    /// The LLVM type of this representation.
    Type(LlvmRepr),
    /// The type `i8*`.
    BytePointer,
    /// A `void` function type, or a function of that type, with parameters
    /// of these types.
    Signature(Seq<Term>),
    /// Parameter `index` of a function of the given signature.
    Param(Box<Term>, nat),
    /// An address cast to address a value of this representation.
    Cast(Box<Term>, LlvmRepr),
    /// The address of field `index` of the struct at an address.
    Field(Box<Term>, nat),
    /// A new stack slot for a value of this representation.
    Slot(LlvmRepr),
    /// The value loaded from an address.
    Load(Box<Term>),
    /// A constant built from this plan.
    Constant(ConstantPlan),
    /// The bits of a value reinterpreted as a value of this representation.
    Bits(Box<Term>, LlvmRepr),
    /// An integer instruction on two operands, in order.
    Int(IntInstruction, Box<Term>, Box<Term>),
    /// A floating-point instruction on two operands, in order.
    Float(FloatInstruction, Box<Term>, Box<Term>),
    /// The bitwise complement of an integer.
    IntNot(Box<Term>),
    /// The negation of an integer.
    IntNeg(Box<Term>),
    /// The negation of a floating-point number.
    FloatNeg(Box<Term>),
    /// A phi node of this representation with no incoming values yet.
    PhiNode(LlvmRepr),
    /// A phi node with two incoming values, in order.
    Phi(Box<Term>, Box<Term>),
}

/// The representation of the value that the address described by `t`
/// addresses: a parameter of type `i8*` addresses an `i8`, a cast or a slot
/// the representation it was made for, and a field address the field's.
pub open spec fn addressed(t: Term) -> Option<LlvmRepr>
    decreases t,
{
    match t {
        Term::Param(signature, index) => match *signature {
            Term::Signature(params) => if index < params.len() && params[index as int]
                == Term::BytePointer {
                Some(LlvmRepr::Scalar(ScalarKind::Int(8)))
            } else {
                None
            },
            _ => None,
        },
        Term::Cast(_, repr) => Some(repr),
        Term::Slot(repr) => Some(repr),
        Term::Field(base, index) => match addressed(*base) {
            Some(LlvmRepr::Struct(fields)) => if index < fields.len() {
                Some(fields[index as int])
            } else {
                None
            },
            _ => None,
        },
        _ => None,
    }
}

/// The representation a type term names, where it is a `Type`.
pub open spec fn type_repr(t: Term) -> LlvmRepr {
    match t {
        Term::Type(repr) => repr,
        _ => LlvmRepr::Struct(Seq::empty()),
    }
}

/// An LLVM type, function or value with the description of how it was
/// built. Only the wrappers of this module make one.
#[derive(Clone, Copy)]
pub struct Built<T> {
    value: T,
    term: Ghost<Term>,
}

impl<T> Built<T> {
    /// How the object was built.
    pub closed spec fn term(&self) -> Term {
        self.term@
    }
}

/// The representations of a sequence of type terms.
pub open spec fn type_reprs<'ctx>(types: Seq<Built<BasicTypeEnum<'ctx>>>) -> Seq<LlvmRepr> {
    types.map_values(|t: Built<BasicTypeEnum<'ctx>>| type_repr(t.term()))
}

/// The terms of a sequence of built objects.
pub open spec fn terms<T>(objects: Seq<Built<T>>) -> Seq<Term> {
    objects.map_values(|o: Built<T>| o.term())
}


/// `Context::custom_width_int_type`: the integer type of `bits` bits.
#[verifier::external_body]
pub(crate) fn int_type<'ctx>(context: &'ctx Context, bits: u32) -> (r: Built<BasicTypeEnum<'ctx>>)
    requires
        1 <= bits <= 128,
    ensures
        r.term() == Term::Type(LlvmRepr::Scalar(ScalarKind::Int(bits))),
{
    Built { value: context.custom_width_int_type(bits).into(), term: Ghost(Term::Type(LlvmRepr::Scalar(ScalarKind::Int(bits)))) }
}

/// `Context::f32_type`: the single-precision floating-point type.
#[verifier::external_body]
pub(crate) fn f32_type<'ctx>(context: &'ctx Context) -> (r: Built<BasicTypeEnum<'ctx>>)
    ensures
        r.term() == Term::Type(LlvmRepr::Scalar(ScalarKind::F32)),
{
    Built { value: context.f32_type().into(), term: Ghost(Term::Type(LlvmRepr::Scalar(ScalarKind::F32))) }
}

/// `Context::f64_type`: the double-precision floating-point type.
#[verifier::external_body]
pub(crate) fn f64_type<'ctx>(context: &'ctx Context) -> (r: Built<BasicTypeEnum<'ctx>>)
    ensures
        r.term() == Term::Type(LlvmRepr::Scalar(ScalarKind::F64)),
{
    Built { value: context.f64_type().into(), term: Ghost(Term::Type(LlvmRepr::Scalar(ScalarKind::F64))) }
}

/// `Context::struct_type`: the unpacked literal struct type of `fields`.
#[verifier::external_body]
pub(crate) fn struct_type<'ctx>(context: &'ctx Context, fields: &Vec<Built<BasicTypeEnum<'ctx>>>) -> (r: Built<BasicTypeEnum<'ctx>>)
    requires
        forall|i: int| 0 <= i < fields@.len() ==> #[trigger] fields@[i].term() is Type,
    ensures
        r.term() == Term::Type(LlvmRepr::Struct(type_reprs(fields@))),
{
    let types: Vec<BasicTypeEnum<'ctx>> = fields.iter().map(|field| field.value).collect();
    Built { value: context.struct_type(types.as_slice(), false).into(), term: Ghost(Term::Type(LlvmRepr::Struct(type_reprs(fields@)))) }
}

/// `Context::i8_type` and `IntType::ptr_type`: the type `i8*`.
#[verifier::external_body]
pub(crate) fn byte_pointer_type<'ctx>(context: &'ctx Context) -> (r: Built<BasicTypeEnum<'ctx>>)
    ensures
        r.term() == Term::BytePointer,
{
    Built { value: context.i8_type().ptr_type(AddressSpace::default()).into(), term: Ghost(Term::BytePointer) }
}

/// `Context::void_type` and `VoidType::fn_type`: the type of a `void`
/// function with parameters of the types `params`, not variadic.
#[verifier::external_body]
pub(crate) fn void_function_type<'ctx>(context: &'ctx Context, params: &Vec<Built<BasicTypeEnum<'ctx>>>) -> (r: Built<FunctionType<'ctx>>)
    ensures
        r.term() == Term::Signature(terms(params@)),
{
    let types: Vec<BasicMetadataTypeEnum<'ctx>> = params.iter().map(|param| param.value.into()).collect();
    Built { value: context.void_type().fn_type(types.as_slice(), false), term: Ghost(Term::Signature(terms(params@))) }
}

/// `Module::add_function`: declares a function `name` of type `ty` in
/// `module`.
#[verifier::external_body]
pub(crate) fn add_function<'ctx>(module: &Module<'ctx>, name: &str, ty: &Built<FunctionType<'ctx>>) -> (r: Built<FunctionValue<'ctx>>)
    ensures
        r.term() == ty.term(),
{
    Built { value: module.add_function(name, ty.value, None), term: Ghost(ty.term()) }
}

/// `IntType::const_int`: the constant `value` of the integer type of `bits`
/// bits; `sign_extend` says whether `value` is read as signed. It cannot
/// fail.
#[verifier::external_body]
pub(crate) fn int_constant<'ctx>(context: &'ctx Context, bits: u32, value: u64, sign_extend: bool) -> (r: Built<BasicValueEnum<'ctx>>)
    requires
        1 <= bits <= 128,
    ensures
        r.term() == Term::Constant(ConstantPlan::Int { bits, value, sign_extend }),
{
    Built { value: context.custom_width_int_type(bits).const_int(value, sign_extend).into(), term: Ghost(Term::Constant(ConstantPlan::Int { bits, value, sign_extend })) }
}

/// `IntType::const_int_arbitrary_precision`: the 128-bit constant whose low
/// and high 64-bit words are `low` and `high`. It cannot fail.
#[verifier::external_body]
pub(crate) fn wide_int_constant<'ctx>(context: &'ctx Context, low: u64, high: u64) -> (r: Built<BasicValueEnum<'ctx>>)
    ensures
        r.term() == Term::Constant(ConstantPlan::Wide { low, high }),
{
    Built { value: context.i128_type().const_int_arbitrary_precision(&[low, high]).into(), term: Ghost(Term::Constant(ConstantPlan::Wide { low, high })) }
}

/// `Builder::build_bit_cast`: reinterprets the bits of `value` as `ty`.
#[verifier::external_body]
pub(crate) fn bit_cast<'ctx>(builder: &Builder<'ctx>, value: &Built<BasicValueEnum<'ctx>>, ty: &Built<BasicTypeEnum<'ctx>>) -> (r: Result<Built<BasicValueEnum<'ctx>>, BuilderError>)
    requires
        ty.term() is Type,
    ensures
        r matches Ok(v) ==> v.term() == Term::Bits(Box::new(value.term()), type_repr(ty.term())),
{
    match builder.build_bit_cast(value.value, ty.value, "bits") {
        Ok(v) => Ok(Built { value: v, term: Ghost(Term::Bits(Box::new(value.term()), type_repr(ty.term()))) }),
        Err(e) => Err(e),
    }
}

/// `Context::create_module`: a new, empty module.
#[verifier::external_body]
pub(crate) fn create_module<'ctx>(context: &'ctx Context) -> Module<'ctx> {
    context.create_module("closure_module")
}

/// `Context::create_builder`: a new instruction builder, not positioned yet.
#[verifier::external_body]
pub(crate) fn create_builder<'ctx>(context: &'ctx Context) -> Builder<'ctx> {
    context.create_builder()
}

/// `Builder::build_pointer_cast`: `pointer` as a pointer to `pointee`.
#[verifier::external_body]
pub(crate) fn cast_pointer<'ctx>(builder: &Builder<'ctx>, pointer: &Built<PointerValue<'ctx>>, pointee: &Built<BasicTypeEnum<'ctx>>) -> (r: Result<Built<PointerValue<'ctx>>, BuilderError>)
    requires
        pointee.term() is Type,
    ensures
        r matches Ok(p) ==> p.term() == Term::Cast(Box::new(pointer.term()), type_repr(pointee.term())),
{
    match builder.build_pointer_cast(pointer.value, pointee.value.ptr_type(AddressSpace::default()), "typed") {
        Ok(p) => Ok(Built { value: p, term: Ghost(Term::Cast(Box::new(pointer.term()), type_repr(pointee.term()))) }),
        Err(e) => Err(e),
    }
}

/// `FunctionValue::get_nth_param`: the `index`th parameter of `function`,
/// where it exists and is a pointer. `index` is one of the function's
/// parameters, so `index + 1` does not overflow.
#[verifier::external_body]
pub(crate) fn pointer_param<'ctx>(function: &Built<FunctionValue<'ctx>>, index: u32) -> (r: Option<Built<PointerValue<'ctx>>>)
    requires
        function.term() matches Term::Signature(params) && index < params.len(),
        index < u32::MAX,
    ensures
        r matches Some(p) ==> p.term() == Term::Param(Box::new(function.term()), index as nat),
{
    match function.value.get_nth_param(index) {
        Some(BasicValueEnum::PointerValue(pointer)) => Some(Built { value: pointer, term: Ghost(Term::Param(Box::new(function.term()), index as nat)) }),
        _ => None,
    }
}

/// `FunctionValue::verify`: whether LLVM accepts the function.
#[verifier::external_body]
pub(crate) fn verify_function<'ctx>(function: &Built<FunctionValue<'ctx>>) -> bool {
    function.value.verify(true)
}

/// `Module::create_jit_execution_engine`: a JIT engine for `module`, or
/// LLVM's message.
#[verifier::external_body]
pub(crate) fn create_jit<'ctx>(module: &Module<'ctx>) -> Result<ExecutionEngine<'ctx>, String> {
    module.create_jit_execution_engine(OptimizationLevel::None).map_err(|error| error.to_string())
}

/// The message of a builder error.
#[verifier::external_body]
pub(crate) fn builder_error_message(error: BuilderError) -> String {
    format!("{:?}", error)
}

/// `Context::append_basic_block`: a new basic block at the end of `function`.
#[verifier::external_body]
pub(crate) fn append_block<'ctx>(context: &'ctx Context, function: &Built<FunctionValue<'ctx>>, name: &str) -> BasicBlock<'ctx> {
    context.append_basic_block(function.value, name)
}

/// `Builder::position_at_end`: later instructions go at the end of `block`.
#[verifier::external_body]
pub(crate) fn position_at_end<'ctx>(builder: &Builder<'ctx>, block: BasicBlock<'ctx>) {
    builder.position_at_end(block)
}

/// `Builder::get_insert_block`: the block instructions now go into.
#[verifier::external_body]
pub(crate) fn insert_block<'ctx>(builder: &Builder<'ctx>) -> Option<BasicBlock<'ctx>> {
    builder.get_insert_block()
}

/// `BasicBlock::get_terminator`: the terminator of `block`, if it has one.
#[verifier::external_body]
pub(crate) fn terminator<'ctx>(block: BasicBlock<'ctx>) -> Option<InstructionValue<'ctx>> {
    block.get_terminator()
}

/// `Builder::build_alloca`: a stack slot of type `ty`.
#[verifier::external_body]
pub(crate) fn alloca<'ctx>(builder: &Builder<'ctx>, ty: &Built<BasicTypeEnum<'ctx>>) -> (r: Result<Built<PointerValue<'ctx>>, BuilderError>)
    requires
        ty.term() is Type,
    ensures
        r matches Ok(p) ==> p.term() == Term::Slot(type_repr(ty.term())),
{
    match builder.build_alloca(ty.value, "local") {
        Ok(v) => Ok(Built { value: v, term: Ghost(Term::Slot(type_repr(ty.term()))) }),
        Err(e) => Err(e),
    }
}

/// `Builder::build_store`: stores `value` at `pointer`.
#[verifier::external_body]
pub(crate) fn store<'ctx>(builder: &Builder<'ctx>, pointer: &Built<PointerValue<'ctx>>, value: &Built<BasicValueEnum<'ctx>>) -> Result<(), BuilderError> {
    builder.build_store(pointer.value, value.value).map(|_| ())
}

/// `Builder::build_load`: loads the value at `pointer`. The pointer
/// addresses a value of a type that this module built (a scalar, a struct of
/// them, or the `i8` behind an `i8*` parameter), which is a basic type, so
/// the loaded value is one too.
#[verifier::external_body]
pub(crate) fn load<'ctx>(builder: &Builder<'ctx>, pointer: &Built<PointerValue<'ctx>>) -> (r: Result<Built<BasicValueEnum<'ctx>>, BuilderError>)
    requires
        addressed(pointer.term()) is Some,
    ensures
        r matches Ok(v) ==> v.term() == Term::Load(Box::new(pointer.term())),
{
    match builder.build_load(pointer.value, "load") {
        Ok(v) => Ok(Built { value: v, term: Ghost(Term::Load(Box::new(pointer.term()))) }),
        Err(e) => Err(e),
    }
}

/// `Builder::build_struct_gep`: the address of field `index` of the struct
/// at `pointer`.
#[verifier::external_body]
pub(crate) fn struct_gep<'ctx>(builder: &Builder<'ctx>, pointer: &Built<PointerValue<'ctx>>, index: u32) -> (r: Result<Built<PointerValue<'ctx>>, BuilderError>)
    ensures
        r matches Ok(p) ==> p.term() == Term::Field(Box::new(pointer.term()), index as nat),
{
    match builder.build_struct_gep(pointer.value, index, "field") {
        Ok(v) => Ok(Built { value: v, term: Ghost(Term::Field(Box::new(pointer.term()), index as nat)) }),
        Err(e) => Err(e),
    }
}

/// `Builder::build_unconditional_branch`: jumps to `block`.
#[verifier::external_body]
pub(crate) fn branch<'ctx>(builder: &Builder<'ctx>, block: BasicBlock<'ctx>) -> Result<(), BuilderError> {
    builder.build_unconditional_branch(block).map(|_| ())
}

/// `Builder::build_conditional_branch`: jumps to `then_block` when
/// `condition` is true, to `else_block` otherwise.
#[verifier::external_body]
pub(crate) fn conditional_branch<'ctx>(builder: &Builder<'ctx>, condition: &Built<IntValue<'ctx>>, then_block: BasicBlock<'ctx>, else_block: BasicBlock<'ctx>) -> Result<(), BuilderError> {
    builder.build_conditional_branch(condition.value, then_block, else_block).map(|_| ())
}

/// `Builder::build_return`: returns from a `void` function.
#[verifier::external_body]
pub(crate) fn return_void<'ctx>(builder: &Builder<'ctx>) -> Result<(), BuilderError> {
    builder.build_return(None).map(|_| ())
}

/// `Builder::build_phi`: a phi node of type `ty`, with no incoming values.
#[verifier::external_body]
pub(crate) fn phi<'ctx>(builder: &Builder<'ctx>, ty: &Built<BasicTypeEnum<'ctx>>) -> (r: Result<Built<PhiValue<'ctx>>, BuilderError>)
    requires
        ty.term() is Type,
    ensures
        r matches Ok(p) ==> p.term() == Term::PhiNode(type_repr(ty.term())),
{
    match builder.build_phi(ty.value, "if_result") {
        Ok(v) => Ok(Built { value: v, term: Ghost(Term::PhiNode(type_repr(ty.term()))) }),
        Err(e) => Err(e),
    }
}

/// `PhiValue::add_incoming`: `phi` takes `first` from `first_block` and
/// `second` from `second_block`; the node with these incoming values.
#[verifier::external_body]
pub(crate) fn add_incoming<'ctx>(phi: &Built<PhiValue<'ctx>>, first: &Built<BasicValueEnum<'ctx>>, first_block: BasicBlock<'ctx>, second: &Built<BasicValueEnum<'ctx>>, second_block: BasicBlock<'ctx>) -> (r: Built<PhiValue<'ctx>>)
    ensures
        r.term() == Term::Phi(Box::new(first.term()), Box::new(second.term())),
{
    phi.value.add_incoming(&[(&first.value, first_block), (&second.value, second_block)]);
    Built { value: phi.value, term: Ghost(Term::Phi(Box::new(first.term()), Box::new(second.term()))) }
}

/// `PhiValue::as_basic_value`: the value of `phi`.
#[verifier::external_body]
pub(crate) fn phi_value<'ctx>(phi: &Built<PhiValue<'ctx>>) -> (r: Built<BasicValueEnum<'ctx>>)
    ensures
        r.term() == phi.term(),
{
    Built { value: phi.value.as_basic_value(), term: Ghost(phi.term()) }
}

/// The integer value held by `value`, if it holds one.
#[verifier::external_body]
pub(crate) fn as_int<'ctx>(value: &Built<BasicValueEnum<'ctx>>) -> (r: Option<Built<IntValue<'ctx>>>)
    ensures
        r matches Some(i) ==> i.term() == value.term(),
{
    match value.value {
        BasicValueEnum::IntValue(v) => Some(Built { value: v, term: Ghost(value.term()) }),
        _ => None,
    }
}

/// The floating-point value held by `value`, if it holds one.
#[verifier::external_body]
pub(crate) fn as_float<'ctx>(value: &Built<BasicValueEnum<'ctx>>) -> (r: Option<Built<FloatValue<'ctx>>>)
    ensures
        r matches Some(f) ==> f.term() == value.term(),
{
    match value.value {
        BasicValueEnum::FloatValue(v) => Some(Built { value: v, term: Ghost(value.term()) }),
        _ => None,
    }
}

/// An integer value as a basic value.
#[verifier::external_body]
pub(crate) fn from_int<'ctx>(value: &Built<IntValue<'ctx>>) -> (r: Built<BasicValueEnum<'ctx>>)
    ensures
        r.term() == value.term(),
{
    Built { value: value.value.into(), term: Ghost(value.term()) }
}

/// A floating-point value as a basic value.
#[verifier::external_body]
pub(crate) fn from_float<'ctx>(value: &Built<FloatValue<'ctx>>) -> (r: Built<BasicValueEnum<'ctx>>)
    ensures
        r.term() == value.term(),
{
    Built { value: value.value.into(), term: Ghost(value.term()) }
}

/// `Builder::build_int_add`: emits `add` on `lhs` and `rhs`.
#[verifier::external_body]
pub(crate) fn int_add<'ctx>(builder: &Builder<'ctx>, lhs: &Built<IntValue<'ctx>>, rhs: &Built<IntValue<'ctx>>) -> (r: Result<Built<IntValue<'ctx>>, BuilderError>)
    ensures
        r matches Ok(v) ==> v.term() == Term::Int(IntInstruction::Add, Box::new(lhs.term()), Box::new(rhs.term())),
{
    match builder.build_int_add(lhs.value, rhs.value, "add") {
        Ok(v) => Ok(Built { value: v, term: Ghost(Term::Int(IntInstruction::Add, Box::new(lhs.term()), Box::new(rhs.term()))) }),
        Err(e) => Err(e),
    }
}

/// `Builder::build_int_sub`: emits `sub` on `lhs` and `rhs`.
#[verifier::external_body]
pub(crate) fn int_sub<'ctx>(builder: &Builder<'ctx>, lhs: &Built<IntValue<'ctx>>, rhs: &Built<IntValue<'ctx>>) -> (r: Result<Built<IntValue<'ctx>>, BuilderError>)
    ensures
        r matches Ok(v) ==> v.term() == Term::Int(IntInstruction::Sub, Box::new(lhs.term()), Box::new(rhs.term())),
{
    match builder.build_int_sub(lhs.value, rhs.value, "sub") {
        Ok(v) => Ok(Built { value: v, term: Ghost(Term::Int(IntInstruction::Sub, Box::new(lhs.term()), Box::new(rhs.term()))) }),
        Err(e) => Err(e),
    }
}

/// `Builder::build_int_mul`: emits `mul` on `lhs` and `rhs`.
#[verifier::external_body]
pub(crate) fn int_mul<'ctx>(builder: &Builder<'ctx>, lhs: &Built<IntValue<'ctx>>, rhs: &Built<IntValue<'ctx>>) -> (r: Result<Built<IntValue<'ctx>>, BuilderError>)
    ensures
        r matches Ok(v) ==> v.term() == Term::Int(IntInstruction::Mul, Box::new(lhs.term()), Box::new(rhs.term())),
{
    match builder.build_int_mul(lhs.value, rhs.value, "mul") {
        Ok(v) => Ok(Built { value: v, term: Ghost(Term::Int(IntInstruction::Mul, Box::new(lhs.term()), Box::new(rhs.term()))) }),
        Err(e) => Err(e),
    }
}

/// `Builder::build_int_signed_div`: emits `sdiv` on `lhs` and `rhs`.
#[verifier::external_body]
pub(crate) fn int_signed_div<'ctx>(builder: &Builder<'ctx>, lhs: &Built<IntValue<'ctx>>, rhs: &Built<IntValue<'ctx>>) -> (r: Result<Built<IntValue<'ctx>>, BuilderError>)
    ensures
        r matches Ok(v) ==> v.term() == Term::Int(IntInstruction::SignedDiv, Box::new(lhs.term()), Box::new(rhs.term())),
{
    match builder.build_int_signed_div(lhs.value, rhs.value, "div") {
        Ok(v) => Ok(Built { value: v, term: Ghost(Term::Int(IntInstruction::SignedDiv, Box::new(lhs.term()), Box::new(rhs.term()))) }),
        Err(e) => Err(e),
    }
}

/// `Builder::build_int_unsigned_div`: emits `udiv` on `lhs` and `rhs`.
#[verifier::external_body]
pub(crate) fn int_unsigned_div<'ctx>(builder: &Builder<'ctx>, lhs: &Built<IntValue<'ctx>>, rhs: &Built<IntValue<'ctx>>) -> (r: Result<Built<IntValue<'ctx>>, BuilderError>)
    ensures
        r matches Ok(v) ==> v.term() == Term::Int(IntInstruction::UnsignedDiv, Box::new(lhs.term()), Box::new(rhs.term())),
{
    match builder.build_int_unsigned_div(lhs.value, rhs.value, "div") {
        Ok(v) => Ok(Built { value: v, term: Ghost(Term::Int(IntInstruction::UnsignedDiv, Box::new(lhs.term()), Box::new(rhs.term()))) }),
        Err(e) => Err(e),
    }
}

/// `Builder::build_int_signed_rem`: emits `srem` on `lhs` and `rhs`.
#[verifier::external_body]
pub(crate) fn int_signed_rem<'ctx>(builder: &Builder<'ctx>, lhs: &Built<IntValue<'ctx>>, rhs: &Built<IntValue<'ctx>>) -> (r: Result<Built<IntValue<'ctx>>, BuilderError>)
    ensures
        r matches Ok(v) ==> v.term() == Term::Int(IntInstruction::SignedRem, Box::new(lhs.term()), Box::new(rhs.term())),
{
    match builder.build_int_signed_rem(lhs.value, rhs.value, "rem") {
        Ok(v) => Ok(Built { value: v, term: Ghost(Term::Int(IntInstruction::SignedRem, Box::new(lhs.term()), Box::new(rhs.term()))) }),
        Err(e) => Err(e),
    }
}

/// `Builder::build_int_unsigned_rem`: emits `urem` on `lhs` and `rhs`.
#[verifier::external_body]
pub(crate) fn int_unsigned_rem<'ctx>(builder: &Builder<'ctx>, lhs: &Built<IntValue<'ctx>>, rhs: &Built<IntValue<'ctx>>) -> (r: Result<Built<IntValue<'ctx>>, BuilderError>)
    ensures
        r matches Ok(v) ==> v.term() == Term::Int(IntInstruction::UnsignedRem, Box::new(lhs.term()), Box::new(rhs.term())),
{
    match builder.build_int_unsigned_rem(lhs.value, rhs.value, "rem") {
        Ok(v) => Ok(Built { value: v, term: Ghost(Term::Int(IntInstruction::UnsignedRem, Box::new(lhs.term()), Box::new(rhs.term()))) }),
        Err(e) => Err(e),
    }
}

/// `Builder::build_and`: emits `and` on `lhs` and `rhs`.
#[verifier::external_body]
pub(crate) fn int_and<'ctx>(builder: &Builder<'ctx>, lhs: &Built<IntValue<'ctx>>, rhs: &Built<IntValue<'ctx>>) -> (r: Result<Built<IntValue<'ctx>>, BuilderError>)
    ensures
        r matches Ok(v) ==> v.term() == Term::Int(IntInstruction::And, Box::new(lhs.term()), Box::new(rhs.term())),
{
    match builder.build_and(lhs.value, rhs.value, "and") {
        Ok(v) => Ok(Built { value: v, term: Ghost(Term::Int(IntInstruction::And, Box::new(lhs.term()), Box::new(rhs.term()))) }),
        Err(e) => Err(e),
    }
}

/// `Builder::build_or`: emits `or` on `lhs` and `rhs`.
#[verifier::external_body]
pub(crate) fn int_or<'ctx>(builder: &Builder<'ctx>, lhs: &Built<IntValue<'ctx>>, rhs: &Built<IntValue<'ctx>>) -> (r: Result<Built<IntValue<'ctx>>, BuilderError>)
    ensures
        r matches Ok(v) ==> v.term() == Term::Int(IntInstruction::Or, Box::new(lhs.term()), Box::new(rhs.term())),
{
    match builder.build_or(lhs.value, rhs.value, "or") {
        Ok(v) => Ok(Built { value: v, term: Ghost(Term::Int(IntInstruction::Or, Box::new(lhs.term()), Box::new(rhs.term()))) }),
        Err(e) => Err(e),
    }
}

/// `Builder::build_xor`: emits `xor` on `lhs` and `rhs`.
#[verifier::external_body]
pub(crate) fn int_xor<'ctx>(builder: &Builder<'ctx>, lhs: &Built<IntValue<'ctx>>, rhs: &Built<IntValue<'ctx>>) -> (r: Result<Built<IntValue<'ctx>>, BuilderError>)
    ensures
        r matches Ok(v) ==> v.term() == Term::Int(IntInstruction::Xor, Box::new(lhs.term()), Box::new(rhs.term())),
{
    match builder.build_xor(lhs.value, rhs.value, "xor") {
        Ok(v) => Ok(Built { value: v, term: Ghost(Term::Int(IntInstruction::Xor, Box::new(lhs.term()), Box::new(rhs.term()))) }),
        Err(e) => Err(e),
    }
}

/// `Builder::build_left_shift`: emits `shl` on `lhs` and `rhs`.
#[verifier::external_body]
pub(crate) fn int_shl<'ctx>(builder: &Builder<'ctx>, lhs: &Built<IntValue<'ctx>>, rhs: &Built<IntValue<'ctx>>) -> (r: Result<Built<IntValue<'ctx>>, BuilderError>)
    ensures
        r matches Ok(v) ==> v.term() == Term::Int(IntInstruction::Shl, Box::new(lhs.term()), Box::new(rhs.term())),
{
    match builder.build_left_shift(lhs.value, rhs.value, "shl") {
        Ok(v) => Ok(Built { value: v, term: Ghost(Term::Int(IntInstruction::Shl, Box::new(lhs.term()), Box::new(rhs.term()))) }),
        Err(e) => Err(e),
    }
}

/// `Builder::build_right_shift`: emits `ashr` on `lhs` and `rhs` when
/// `arithmetic`, `lshr` otherwise.
#[verifier::external_body]
pub(crate) fn int_shr<'ctx>(builder: &Builder<'ctx>, lhs: &Built<IntValue<'ctx>>, rhs: &Built<IntValue<'ctx>>, arithmetic: bool) -> (r: Result<Built<IntValue<'ctx>>, BuilderError>)
    ensures
        r matches Ok(v) ==> v.term() == Term::Int(IntInstruction::Shr { arithmetic }, Box::new(lhs.term()), Box::new(rhs.term())),
{
    match builder.build_right_shift(lhs.value, rhs.value, arithmetic, "shr") {
        Ok(v) => Ok(Built { value: v, term: Ghost(Term::Int(IntInstruction::Shr { arithmetic }, Box::new(lhs.term()), Box::new(rhs.term()))) }),
        Err(e) => Err(e),
    }
}

/// `Builder::build_not`: emits the bitwise complement of `value`.
#[verifier::external_body]
pub(crate) fn int_not<'ctx>(builder: &Builder<'ctx>, value: &Built<IntValue<'ctx>>) -> (r: Result<Built<IntValue<'ctx>>, BuilderError>)
    ensures
        r matches Ok(v) ==> v.term() == Term::IntNot(Box::new(value.term())),
{
    match builder.build_not(value.value, "not") {
        Ok(v) => Ok(Built { value: v, term: Ghost(Term::IntNot(Box::new(value.term()))) }),
        Err(e) => Err(e),
    }
}

/// `Builder::build_int_neg`: emits `0 - value` for `value`.
#[verifier::external_body]
pub(crate) fn int_neg<'ctx>(builder: &Builder<'ctx>, value: &Built<IntValue<'ctx>>) -> (r: Result<Built<IntValue<'ctx>>, BuilderError>)
    ensures
        r matches Ok(v) ==> v.term() == Term::IntNeg(Box::new(value.term())),
{
    match builder.build_int_neg(value.value, "neg") {
        Ok(v) => Ok(Built { value: v, term: Ghost(Term::IntNeg(Box::new(value.term()))) }),
        Err(e) => Err(e),
    }
}

/// `Builder::build_int_compare`: emits `icmp` with `predicate` on `lhs` and
/// `rhs`.
#[verifier::external_body]
pub(crate) fn int_compare<'ctx>(builder: &Builder<'ctx>, predicate: IntCompare, lhs: &Built<IntValue<'ctx>>, rhs: &Built<IntValue<'ctx>>) -> (r: Result<Built<IntValue<'ctx>>, BuilderError>)
    ensures
        r matches Ok(v) ==> v.term() == Term::Int(IntInstruction::Compare(predicate), Box::new(lhs.term()), Box::new(rhs.term())),
{
    let kind = match predicate {
        IntCompare::Eq => IntPredicate::EQ, IntCompare::Ne => IntPredicate::NE,
        IntCompare::Ult => IntPredicate::ULT, IntCompare::Ule => IntPredicate::ULE,
        IntCompare::Ugt => IntPredicate::UGT, IntCompare::Uge => IntPredicate::UGE,
        IntCompare::Slt => IntPredicate::SLT, IntCompare::Sle => IntPredicate::SLE,
        IntCompare::Sgt => IntPredicate::SGT, IntCompare::Sge => IntPredicate::SGE,
    };
    match builder.build_int_compare(kind, lhs.value, rhs.value, "cmp") {
        Ok(v) => Ok(Built { value: v, term: Ghost(Term::Int(IntInstruction::Compare(predicate), Box::new(lhs.term()), Box::new(rhs.term()))) }),
        Err(e) => Err(e),
    }
}

/// `Builder::build_float_add`: emits `fadd` on `lhs` and `rhs`.
#[verifier::external_body]
pub(crate) fn float_add<'ctx>(builder: &Builder<'ctx>, lhs: &Built<FloatValue<'ctx>>, rhs: &Built<FloatValue<'ctx>>) -> (r: Result<Built<FloatValue<'ctx>>, BuilderError>)
    ensures
        r matches Ok(v) ==> v.term() == Term::Float(FloatInstruction::Add, Box::new(lhs.term()), Box::new(rhs.term())),
{
    match builder.build_float_add(lhs.value, rhs.value, "add") {
        Ok(v) => Ok(Built { value: v, term: Ghost(Term::Float(FloatInstruction::Add, Box::new(lhs.term()), Box::new(rhs.term()))) }),
        Err(e) => Err(e),
    }
}

/// `Builder::build_float_sub`: emits `fsub` on `lhs` and `rhs`.
#[verifier::external_body]
pub(crate) fn float_sub<'ctx>(builder: &Builder<'ctx>, lhs: &Built<FloatValue<'ctx>>, rhs: &Built<FloatValue<'ctx>>) -> (r: Result<Built<FloatValue<'ctx>>, BuilderError>)
    ensures
        r matches Ok(v) ==> v.term() == Term::Float(FloatInstruction::Sub, Box::new(lhs.term()), Box::new(rhs.term())),
{
    match builder.build_float_sub(lhs.value, rhs.value, "sub") {
        Ok(v) => Ok(Built { value: v, term: Ghost(Term::Float(FloatInstruction::Sub, Box::new(lhs.term()), Box::new(rhs.term()))) }),
        Err(e) => Err(e),
    }
}

/// `Builder::build_float_mul`: emits `fmul` on `lhs` and `rhs`.
#[verifier::external_body]
pub(crate) fn float_mul<'ctx>(builder: &Builder<'ctx>, lhs: &Built<FloatValue<'ctx>>, rhs: &Built<FloatValue<'ctx>>) -> (r: Result<Built<FloatValue<'ctx>>, BuilderError>)
    ensures
        r matches Ok(v) ==> v.term() == Term::Float(FloatInstruction::Mul, Box::new(lhs.term()), Box::new(rhs.term())),
{
    match builder.build_float_mul(lhs.value, rhs.value, "mul") {
        Ok(v) => Ok(Built { value: v, term: Ghost(Term::Float(FloatInstruction::Mul, Box::new(lhs.term()), Box::new(rhs.term()))) }),
        Err(e) => Err(e),
    }
}

/// `Builder::build_float_div`: emits `fdiv` on `lhs` and `rhs`.
#[verifier::external_body]
pub(crate) fn float_div<'ctx>(builder: &Builder<'ctx>, lhs: &Built<FloatValue<'ctx>>, rhs: &Built<FloatValue<'ctx>>) -> (r: Result<Built<FloatValue<'ctx>>, BuilderError>)
    ensures
        r matches Ok(v) ==> v.term() == Term::Float(FloatInstruction::Div, Box::new(lhs.term()), Box::new(rhs.term())),
{
    match builder.build_float_div(lhs.value, rhs.value, "div") {
        Ok(v) => Ok(Built { value: v, term: Ghost(Term::Float(FloatInstruction::Div, Box::new(lhs.term()), Box::new(rhs.term()))) }),
        Err(e) => Err(e),
    }
}

/// `Builder::build_float_rem`: emits `frem` on `lhs` and `rhs`.
#[verifier::external_body]
pub(crate) fn float_rem<'ctx>(builder: &Builder<'ctx>, lhs: &Built<FloatValue<'ctx>>, rhs: &Built<FloatValue<'ctx>>) -> (r: Result<Built<FloatValue<'ctx>>, BuilderError>)
    ensures
        r matches Ok(v) ==> v.term() == Term::Float(FloatInstruction::Rem, Box::new(lhs.term()), Box::new(rhs.term())),
{
    match builder.build_float_rem(lhs.value, rhs.value, "rem") {
        Ok(v) => Ok(Built { value: v, term: Ghost(Term::Float(FloatInstruction::Rem, Box::new(lhs.term()), Box::new(rhs.term()))) }),
        Err(e) => Err(e),
    }
}

/// `Builder::build_float_neg`: emits `fneg` of `value`.
#[verifier::external_body]
pub(crate) fn float_neg<'ctx>(builder: &Builder<'ctx>, value: &Built<FloatValue<'ctx>>) -> (r: Result<Built<FloatValue<'ctx>>, BuilderError>)
    ensures
        r matches Ok(v) ==> v.term() == Term::FloatNeg(Box::new(value.term())),
{
    match builder.build_float_neg(value.value, "neg") {
        Ok(v) => Ok(Built { value: v, term: Ghost(Term::FloatNeg(Box::new(value.term()))) }),
        Err(e) => Err(e),
    }
}

/// `Builder::build_float_compare`: emits `fcmp` with `predicate` on `lhs`
/// and `rhs`.
#[verifier::external_body]
pub(crate) fn float_compare<'ctx>(builder: &Builder<'ctx>, predicate: FloatCompare, lhs: &Built<FloatValue<'ctx>>, rhs: &Built<FloatValue<'ctx>>) -> (r: Result<Built<IntValue<'ctx>>, BuilderError>)
    ensures
        r matches Ok(v) ==> v.term() == Term::Float(FloatInstruction::Compare(predicate), Box::new(lhs.term()), Box::new(rhs.term())),
{
    let kind = match predicate {
        FloatCompare::Oeq => FloatPredicate::OEQ,
        FloatCompare::Une => FloatPredicate::UNE,
        FloatCompare::Olt => FloatPredicate::OLT,
        FloatCompare::Ole => FloatPredicate::OLE,
        FloatCompare::Ogt => FloatPredicate::OGT,
        FloatCompare::Oge => FloatPredicate::OGE,
    };
    match builder.build_float_compare(kind, lhs.value, rhs.value, "cmp") {
        Ok(v) => Ok(Built { value: v, term: Ghost(Term::Float(FloatInstruction::Compare(predicate), Box::new(lhs.term()), Box::new(rhs.term()))) }),
        Err(e) => Err(e),
    }
}

} // verus!
