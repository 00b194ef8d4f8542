//! The MLIR text emitter: fresh value and block names, MLIR type syntax and
//! one line of LLVM-dialect text per emitted operation. Each emitting method
//! states exactly the text it appends.
use vstd::prelude::*;
use crate::decimal::{push_decimal, push_signed_decimal, spec_decimal, spec_signed_decimal};
use crate::expr::Closure;
use crate::text::contains_char;
use crate::types::{FieldModel, TypeInfo, TypeModel, fields_model, lemma_fields_model};

verus! {

/// Whether a reference names a value or the address of one.
#[derive(Debug, Clone, Copy, PartialEq, Eq)]
pub enum RefKind {
    Value,
    Address,
}

/// A named MLIR value and the type of what it names.
pub struct Ref {
    pub name: String,
    pub ty: TypeInfo,
    pub kind: RefKind,
}

/// The MLIR name of the `n`th value.
pub open spec fn value_name(n: nat) -> Seq<char> {
    "%v"@ + spec_decimal(n)
}

/// The MLIR syntax of a type.
pub open spec fn mlir_type(t: TypeModel) -> Seq<char>
    decreases t, 0nat,
{
    match t {
        TypeModel::F32 => "f32"@,
        TypeModel::F64 => "f64"@,
        TypeModel::I8 | TypeModel::U8 => "i8"@,
        TypeModel::I16 | TypeModel::U16 => "i16"@,
        TypeModel::I32 | TypeModel::U32 => "i32"@,
        TypeModel::I64 | TypeModel::U64 | TypeModel::Usize => "i64"@,
        TypeModel::I128 | TypeModel::U128 => "i128"@,
        TypeModel::Bool => "i1"@,
        TypeModel::Array { element, length } => "!llvm.array<"@ + spec_decimal(length) + " x "@
            + mlir_type(*element) + ">"@,
        TypeModel::Slice { .. } => "!llvm.struct<(ptr, i64)>"@,
        TypeModel::Struct { fields, .. } => "!llvm.struct<("@ + mlir_field_types(fields) + ")>"@,
    }
}

/// The MLIR types of the fields of a struct, separated by `, `.
pub open spec fn mlir_field_types(fields: Seq<FieldModel>) -> Seq<char>
    decreases fields, 1nat,
{
    if fields.len() == 0 {
        Seq::empty()
    } else if fields.len() == 1 {
        mlir_type(fields[0].type_info)
    } else {
        mlir_field_types(fields.drop_last()) + ", "@ + mlir_type(fields.last().type_info)
    }
}

/// Indices in decimal, separated by `, `.
pub open spec fn index_list(indices: Seq<usize>) -> Seq<char>
    decreases indices.len(),
{
    if indices.len() == 0 {
        Seq::empty()
    } else if indices.len() == 1 {
        spec_decimal(indices[0] as nat)
    } else {
        index_list(indices.drop_last()) + ", "@ + spec_decimal(indices.last() as nat)
    }
}

/// The MLIR syntax of the floating-point literal written `n`: it keeps a
/// fractional part or an exponent, and gets `.0` otherwise.
pub open spec fn float_literal(n: Seq<char>) -> Seq<char> {
    if n.contains('.') || n.contains('e') || n.contains('E') {
        n
    } else {
        n + ".0"@
    }
}

/// Builds the MLIR text of a closure's function.
pub struct MlirBuilder<'a> {
    pub name: &'a str,
    pub closure: &'a Closure,
    pub dynamic: bool,
    pub text: String,
    pub next_value: usize,
    pub next_block: usize,
    pub current_terminated: bool,
    pub refs: Vec<Ref>,
    pub args: Vec<Ref>,
    pub local_count: usize,
}

impl<'a> MlirBuilder<'a> {
    pub fn new(name: &'a str, closure: &'a Closure, dynamic: bool) -> (r: Self)
        ensures
            r.name == name,
            r.closure == closure,
            r.dynamic == dynamic,
            r.text@ == Seq::<char>::empty(),
            r.next_value == 0,
            r.next_block == 0,
            !r.current_terminated,
            r.refs@.len() == 0,
            r.args@.len() == 0,
            r.local_count == 0,
    {
        MlirBuilder {
            name,
            closure,
            dynamic,
            text: String::new(),
            next_value: 0,
            next_block: 0,
            current_terminated: false,
            refs: Vec::new(),
            args: Vec::new(),
            local_count: 0,
        }
    }

    /// A fresh value name.
    pub fn value(&mut self) -> (r: String)
        requires
            old(self).next_value < usize::MAX,
        ensures
            r@ == value_name(old(self).next_value as nat),
            final(self).next_value == old(self).next_value + 1,
            final(self).text == old(self).text,
            final(self).next_block == old(self).next_block,
            final(self).current_terminated == old(self).current_terminated,
    {
        let mut s = String::new();
        s.append("%v");
        push_decimal(&mut s, self.next_value as u128);
        self.next_value = self.next_value + 1;
        s
    }

    /// A fresh block name with `prefix`.
    pub fn block(&mut self, prefix: &str) -> (r: String)
        requires
            old(self).next_block < usize::MAX,
        ensures
            r@ == prefix@ + "_"@ + spec_decimal(old(self).next_block as nat),
            final(self).next_block == old(self).next_block + 1,
            final(self).text == old(self).text,
            final(self).next_value == old(self).next_value,
            final(self).current_terminated == old(self).current_terminated,
    {
        let mut s = String::new();
        s.append(prefix);
        s.append("_");
        push_decimal(&mut s, self.next_block as u128);
        self.next_block = self.next_block + 1;
        s
    }

    /// The MLIR syntax of `t`.
    pub fn ty(t: &TypeInfo) -> (r: String)
        ensures
            r@ == mlir_type(t@),
        decreases t,
    {
        let mut s = String::new();
        Self::push_type(&mut s, t);
        proof {
            assert(s@ =~= mlir_type(t@));
        }
        s
    }

    /// Appends the MLIR syntax of `t` to `out`.
    fn push_type(out: &mut String, t: &TypeInfo)
        ensures
            final(out)@ == old(out)@ + mlir_type(t@),
        decreases t,
    {
        match t {
            TypeInfo::F32 => out.append("f32"),
            TypeInfo::F64 => out.append("f64"),
            TypeInfo::I8 | TypeInfo::U8 => out.append("i8"),
            TypeInfo::I16 | TypeInfo::U16 => out.append("i16"),
            TypeInfo::I32 | TypeInfo::U32 => out.append("i32"),
            TypeInfo::I64 | TypeInfo::U64 | TypeInfo::Usize => out.append("i64"),
            TypeInfo::I128 | TypeInfo::U128 => out.append("i128"),
            TypeInfo::Bool => out.append("i1"),
            TypeInfo::Array { element, length } => {
                out.append("!llvm.array<");
                push_decimal(out, *length as u128);
                out.append(" x ");
                Self::push_type(out, element);
                out.append(">");
                proof {
                    assert(final(out)@ =~= old(out)@ + mlir_type(t@));
                }
            },
            TypeInfo::Slice { .. } => out.append("!llvm.struct<(ptr, i64)>"),
            TypeInfo::Struct { name, fields } => {
                let ghost start = out@;
                out.append("!llvm.struct<(");
                let ghost prefix = out@;
                let ghost model = fields_model(fields@);
                proof {
                    lemma_fields_model(fields@);
                    assert(model.take(0) =~= Seq::<FieldModel>::empty());
                    assert(out@ =~= prefix + mlir_field_types(model.take(0)));
                }
                let mut i: usize = 0;
                while i < fields.len()
                    invariant
                        0 <= i <= fields@.len(),
                        *t == (TypeInfo::Struct { name: *name, fields: *fields }),
                        model == fields_model(fields@),
                        model.len() == fields@.len(),
                        forall|k: int| 0 <= k < fields@.len() ==> #[trigger] model[k] == fields@[k]@,
                        out@ == prefix + mlir_field_types(model.take(i as int)),
                    decreases fields@.len() - i,
                {
                    proof {
                        assert(decreases_to!(*t => (*t)->fields));
                        assert(decreases_to!(*fields => fields@));
                        assert(decreases_to!(fields@ => fields@[i as int]));
                        assert(decreases_to!(fields@[i as int] => fields@[i as int].type_info));
                    }
                    let ghost before = out@;
                    if i > 0 {
                        out.append(", ");
                    }
                    Self::push_type(out, &fields[i].type_info);
                    proof {
                        let next = model.take(i + 1);
                        assert(next.drop_last() =~= model.take(i as int));
                        assert(next.last() == model[i as int]);
                        if i == 0 {
                            assert(out@ =~= prefix + mlir_field_types(next));
                        } else {
                            assert(out@ =~= prefix + mlir_field_types(next));
                        }
                    }
                    i = i + 1;
                }
                out.append(")>");
                proof {
                    assert(model.take(fields@.len() as int) =~= model);
                    assert(final(out)@ =~= start + mlir_type(t@));
                }
            },
        }
    }

    /// Emits the constant 1 of type `i64`.
    pub fn one(&mut self) -> (r: String)
        requires
            old(self).next_value < usize::MAX,
        ensures
            r@ == value_name(old(self).next_value as nat),
            final(self).text@ == old(self).text@ + "    "@ + r@
                + " = llvm.mlir.constant(1 : i64) : i64\n"@,
            final(self).next_value == old(self).next_value + 1,
            final(self).next_block == old(self).next_block,
            final(self).current_terminated == old(self).current_terminated,
    {
        let v = self.value();
        self.text.append("    ");
        self.text.append(v.as_str());
        self.text.append(" = llvm.mlir.constant(1 : i64) : i64\n");
        v
    }

    /// Emits the constant `n` of type `i64`.
    pub fn c_i64(&mut self, n: i64) -> (r: String)
        requires
            old(self).next_value < usize::MAX,
        ensures
            r@ == value_name(old(self).next_value as nat),
            final(self).text@ == old(self).text@ + "    "@ + r@ + " = llvm.mlir.constant("@
                + spec_signed_decimal(n as int) + " : i64) : i64\n"@,
            final(self).next_value == old(self).next_value + 1,
            final(self).next_block == old(self).next_block,
            final(self).current_terminated == old(self).current_terminated,
    {
        let v = self.value();
        self.text.append("    ");
        self.text.append(v.as_str());
        self.text.append(" = llvm.mlir.constant(");
        push_signed_decimal(&mut self.text, n as i128);
        self.text.append(" : i64) : i64\n");
        v
    }

    /// Emits the constant `b` of type `i1`.
    pub fn c_bool(&mut self, b: bool) -> (r: String)
        requires
            old(self).next_value < usize::MAX,
        ensures
            r@ == value_name(old(self).next_value as nat),
            final(self).text@ == old(self).text@ + "    "@ + r@ + " = llvm.mlir.constant("@ + (
            if b {
                "1"@
            } else {
                "0"@
            }) + " : i1) : i1\n"@,
            final(self).next_value == old(self).next_value + 1,
            final(self).next_block == old(self).next_block,
            final(self).current_terminated == old(self).current_terminated,
    {
        let v = self.value();
        let n = if b {
            "1"
        } else {
            "0"
        };
        self.text.append("    ");
        self.text.append(v.as_str());
        self.text.append(" = llvm.mlir.constant(");
        self.text.append(n);
        self.text.append(" : i1) : i1\n");
        v
    }

    /// Emits the integer constant written `n` of type `ty`.
    pub fn c_int(&mut self, n: &str, ty: &str) -> (r: String)
        requires
            old(self).next_value < usize::MAX,
        ensures
            r@ == value_name(old(self).next_value as nat),
            final(self).text@ == old(self).text@ + "    "@ + r@ + " = llvm.mlir.constant("@ + n@
                + " : "@ + ty@ + ") : "@ + ty@ + "\n"@,
            final(self).next_value == old(self).next_value + 1,
            final(self).next_block == old(self).next_block,
            final(self).current_terminated == old(self).current_terminated,
    {
        let v = self.value();
        self.text.append("    ");
        self.text.append(v.as_str());
        self.text.append(" = llvm.mlir.constant(");
        self.text.append(n);
        self.text.append(" : ");
        self.text.append(ty);
        self.text.append(") : ");
        self.text.append(ty);
        self.text.append("\n");
        v
    }

    /// Emits the floating-point constant written `n` of type `ty`.
    pub fn c_real(&mut self, n: &str, ty: &str) -> (r: String)
        requires
            old(self).next_value < usize::MAX,
        ensures
            r@ == value_name(old(self).next_value as nat),
            final(self).text@ == old(self).text@ + "    "@ + r@ + " = llvm.mlir.constant("@
                + float_literal(n@) + " : "@ + ty@ + ") : "@ + ty@ + "\n"@,
            final(self).next_value == old(self).next_value + 1,
            final(self).next_block == old(self).next_block,
            final(self).current_terminated == old(self).current_terminated,
    {
        let v = self.value();
        let mut literal = String::new();
        literal.append(n);
        if !(contains_char(n, '.') || contains_char(n, 'e') || contains_char(n, 'E')) {
            literal.append(".0");
        }
        self.text.append("    ");
        self.text.append(v.as_str());
        self.text.append(" = llvm.mlir.constant(");
        self.text.append(literal.as_str());
        self.text.append(" : ");
        self.text.append(ty);
        self.text.append(") : ");
        self.text.append(ty);
        self.text.append("\n");
        proof {
            assert(literal@ =~= float_literal(n@));
        }
        v
    }

    /// Emits `alloca` of one value of type `t`.
    pub fn alloca(&mut self, t: &TypeInfo) -> (r: String)
        requires
            old(self).next_value < usize::MAX - 1,
        ensures
            r@ == value_name((old(self).next_value + 1) as nat),
            final(self).text@ == old(self).text@ + "    "@ + value_name(old(self).next_value as nat)
                + " = llvm.mlir.constant(1 : i64) : i64\n"@ + "    "@ + r@ + " = llvm.alloca "@
                + value_name(old(self).next_value as nat) + " x "@ + mlir_type(t@)
                + " : (i64) -> !llvm.ptr\n"@,
            final(self).next_value == old(self).next_value + 2,
            final(self).next_block == old(self).next_block,
            final(self).current_terminated == old(self).current_terminated,
    {
        let n = self.one();
        let v = self.value();
        let ty = Self::ty(t);
        self.text.append("    ");
        self.text.append(v.as_str());
        self.text.append(" = llvm.alloca ");
        self.text.append(n.as_str());
        self.text.append(" x ");
        self.text.append(ty.as_str());
        self.text.append(" : (i64) -> !llvm.ptr\n");
        v
    }

    /// Emits a load of a value of type `t` from `p`.
    pub fn load(&mut self, p: &str, t: &TypeInfo) -> (r: String)
        requires
            old(self).next_value < usize::MAX,
        ensures
            r@ == value_name(old(self).next_value as nat),
            final(self).text@ == old(self).text@ + "    "@ + r@ + " = llvm.load "@ + p@
                + " : !llvm.ptr -> "@ + mlir_type(t@) + "\n"@,
            final(self).next_value == old(self).next_value + 1,
            final(self).next_block == old(self).next_block,
            final(self).current_terminated == old(self).current_terminated,
    {
        let ty = Self::ty(t);
        self.load_raw(p, ty.as_str())
    }

    /// Emits a load of a value of MLIR type `t` from `p`.
    pub fn load_raw(&mut self, p: &str, t: &str) -> (r: String)
        requires
            old(self).next_value < usize::MAX,
        ensures
            r@ == value_name(old(self).next_value as nat),
            final(self).text@ == old(self).text@ + "    "@ + r@ + " = llvm.load "@ + p@
                + " : !llvm.ptr -> "@ + t@ + "\n"@,
            final(self).next_value == old(self).next_value + 1,
            final(self).next_block == old(self).next_block,
            final(self).current_terminated == old(self).current_terminated,
    {
        let v = self.value();
        self.text.append("    ");
        self.text.append(v.as_str());
        self.text.append(" = llvm.load ");
        self.text.append(p);
        self.text.append(" : !llvm.ptr -> ");
        self.text.append(t);
        self.text.append("\n");
        v
    }

    /// Emits a store of `v`, of type `t`, at `p`.
    pub fn store(&mut self, v: &str, p: &str, t: &TypeInfo)
        ensures
            final(self).text@ == old(self).text@ + "    llvm.store "@ + v@ + ", "@ + p@ + " : "@
                + mlir_type(t@) + ", !llvm.ptr\n"@,
            final(self).next_value == old(self).next_value,
            final(self).next_block == old(self).next_block,
            final(self).current_terminated == old(self).current_terminated,
    {
        let ty = Self::ty(t);
        self.text.append("    llvm.store ");
        self.text.append(v);
        self.text.append(", ");
        self.text.append(p);
        self.text.append(" : ");
        self.text.append(ty.as_str());
        self.text.append(", !llvm.ptr\n");
    }

    /// Emits the address of the element at the constant `indices` of the
    /// value of type `t` at `p`.
    pub fn gep_const(&mut self, p: &str, t: &TypeInfo, indices: &[usize]) -> (r: String)
        requires
            old(self).next_value < usize::MAX,
        ensures
            r@ == value_name(old(self).next_value as nat),
            final(self).text@ == old(self).text@ + "    "@ + r@ + " = llvm.getelementptr "@ + p@
                + "["@ + index_list(indices@) + "] : (!llvm.ptr) -> !llvm.ptr, "@ + mlir_type(t@)
                + "\n"@,
            final(self).next_value == old(self).next_value + 1,
            final(self).next_block == old(self).next_block,
            final(self).current_terminated == old(self).current_terminated,
    {
        let v = self.value();
        let mut idx = String::new();
        let mut i: usize = 0;
        proof {
            assert(indices@.take(0) =~= Seq::<usize>::empty());
            assert(idx@ =~= index_list(indices@.take(0)));
        }
        while i < indices.len()
            invariant
                0 <= i <= indices@.len(),
                idx@ == index_list(indices@.take(i as int)),
            decreases indices@.len() - i,
        {
            if i > 0 {
                idx.append(", ");
            }
            push_decimal(&mut idx, indices[i] as u128);
            proof {
                let next = indices@.take(i + 1);
                assert(next.drop_last() =~= indices@.take(i as int));
                assert(next.last() == indices@[i as int]);
                assert(idx@ =~= index_list(next));
            }
            i = i + 1;
        }
        proof {
            assert(indices@.take(indices@.len() as int) =~= indices@);
        }
        let ty = Self::ty(t);
        self.text.append("    ");
        self.text.append(v.as_str());
        self.text.append(" = llvm.getelementptr ");
        self.text.append(p);
        self.text.append("[");
        self.text.append(idx.as_str());
        self.text.append("] : (!llvm.ptr) -> !llvm.ptr, ");
        self.text.append(ty.as_str());
        self.text.append("\n");
        v
    }

    /// Emits the address of element `idx` of the sequence of values of type
    /// `t` at `p`.
    pub fn gep_dynamic(&mut self, p: &str, t: &TypeInfo, idx: &str) -> (r: String)
        requires
            old(self).next_value < usize::MAX,
        ensures
            r@ == value_name(old(self).next_value as nat),
            final(self).text@ == old(self).text@ + "    "@ + r@ + " = llvm.getelementptr "@ + p@
                + "["@ + idx@ + "] : (!llvm.ptr, i64) -> !llvm.ptr, "@ + mlir_type(t@) + "\n"@,
            final(self).next_value == old(self).next_value + 1,
            final(self).next_block == old(self).next_block,
            final(self).current_terminated == old(self).current_terminated,
    {
        let ty = Self::ty(t);
        self.gep_raw(p, ty.as_str(), idx)
    }

    /// Emits the address of element `idx` of the array of type `t` at `p`.
    pub fn gep_array_dynamic(&mut self, p: &str, t: &TypeInfo, idx: &str) -> (r: String)
        requires
            old(self).next_value < usize::MAX,
        ensures
            r@ == value_name(old(self).next_value as nat),
            final(self).text@ == old(self).text@ + "    "@ + r@ + " = llvm.getelementptr "@ + p@
                + "[0, "@ + idx@ + "] : (!llvm.ptr, i64) -> !llvm.ptr, "@ + mlir_type(t@) + "\n"@,
            final(self).next_value == old(self).next_value + 1,
            final(self).next_block == old(self).next_block,
            final(self).current_terminated == old(self).current_terminated,
    {
        let v = self.value();
        let ty = Self::ty(t);
        self.text.append("    ");
        self.text.append(v.as_str());
        self.text.append(" = llvm.getelementptr ");
        self.text.append(p);
        self.text.append("[0, ");
        self.text.append(idx);
        self.text.append("] : (!llvm.ptr, i64) -> !llvm.ptr, ");
        self.text.append(ty.as_str());
        self.text.append("\n");
        v
    }

    /// Emits the address of element `idx` of the sequence of values of MLIR
    /// type `elem_ty` at `p`.
    pub fn gep_raw(&mut self, p: &str, elem_ty: &str, idx: &str) -> (r: String)
        requires
            old(self).next_value < usize::MAX,
        ensures
            r@ == value_name(old(self).next_value as nat),
            final(self).text@ == old(self).text@ + "    "@ + r@ + " = llvm.getelementptr "@ + p@
                + "["@ + idx@ + "] : (!llvm.ptr, i64) -> !llvm.ptr, "@ + elem_ty@ + "\n"@,
            final(self).next_value == old(self).next_value + 1,
            final(self).next_block == old(self).next_block,
            final(self).current_terminated == old(self).current_terminated,
    {
        let v = self.value();
        self.text.append("    ");
        self.text.append(v.as_str());
        self.text.append(" = llvm.getelementptr ");
        self.text.append(p);
        self.text.append("[");
        self.text.append(idx);
        self.text.append("] : (!llvm.ptr, i64) -> !llvm.ptr, ");
        self.text.append(elem_ty);
        self.text.append("\n");
        v
    }

    /// Emits a jump to `target`; the current block then ends.
    pub fn emit_branch(&mut self, target: &str)
        ensures
            final(self).text@ == old(self).text@ + "    llvm.br ^"@ + target@ + "\n"@,
            final(self).current_terminated,
            final(self).next_value == old(self).next_value,
            final(self).next_block == old(self).next_block,
    {
        self.text.append("    llvm.br ^");
        self.text.append(target);
        self.text.append("\n");
        self.current_terminated = true;
    }

    /// Emits a jump to `t` when `c` holds and to `f` otherwise; the current
    /// block then ends.
    pub fn emit_cond(&mut self, c: &str, t: &str, f: &str)
        ensures
            final(self).text@ == old(self).text@ + "    llvm.cond_br "@ + c@ + ", ^"@ + t@ + ", ^"@
                + f@ + "\n"@,
            final(self).current_terminated,
            final(self).next_value == old(self).next_value,
            final(self).next_block == old(self).next_block,
    {
        self.text.append("    llvm.cond_br ");
        self.text.append(c);
        self.text.append(", ^");
        self.text.append(t);
        self.text.append(", ^");
        self.text.append(f);
        self.text.append("\n");
        self.current_terminated = true;
    }

    /// Starts the block `label`.
    pub fn label(&mut self, label: &str)
        ensures
            final(self).text@ == old(self).text@ + "  ^"@ + label@ + ":\n"@,
            !final(self).current_terminated,
            final(self).next_value == old(self).next_value,
            final(self).next_block == old(self).next_block,
    {
        self.text.append("  ^");
        self.text.append(label);
        self.text.append(":\n");
        self.current_terminated = false;
    }

    /// Emits a bounds check of `index` against `len`: out-of-bounds indices
    /// trap, and the text goes on in the block where the index is in bounds.
    pub fn bounds(&mut self, index: &str, len: &str) -> (r: Result<(), String>)
        requires
            old(self).next_value < usize::MAX,
            old(self).next_block < usize::MAX - 1,
        ensures
            r is Ok,
            ({
                let check = value_name(old(self).next_value as nat);
                let ok = "bounds_ok_"@ + spec_decimal(old(self).next_block as nat);
                let trap = "bounds_trap_"@ + spec_decimal((old(self).next_block + 1) as nat);
                final(self).text@ == old(self).text@ + "    "@ + check + " = llvm.icmp \"ult\" "@
                    + index@ + ", "@ + len@ + " : i64\n"@ + "    llvm.cond_br "@ + check + ", ^"@ + ok
                    + ", ^"@ + trap + "\n"@ + "  ^"@ + trap + ":\n"@
                    + "    llvm.intr.trap\n    llvm.unreachable\n"@ + "  ^"@ + ok + ":\n"@
            }),
            !final(self).current_terminated,
            final(self).next_value == old(self).next_value + 1,
            final(self).next_block == old(self).next_block + 2,
    {
        let check = self.value();
        self.text.append("    ");
        self.text.append(check.as_str());
        self.text.append(" = llvm.icmp \"ult\" ");
        self.text.append(index);
        self.text.append(", ");
        self.text.append(len);
        self.text.append(" : i64\n");
        let ok = self.block("bounds_ok");
        let trap = self.block("bounds_trap");
        proof {
            reveal_strlit("bounds_ok");
            reveal_strlit("bounds_trap");
            reveal_strlit("_");
            reveal_strlit("bounds_ok_");
            reveal_strlit("bounds_trap_");
        }
        self.emit_cond(check.as_str(), ok.as_str(), trap.as_str());
        self.label(trap.as_str());
        self.text.append("    llvm.intr.trap\n    llvm.unreachable\n");
        self.current_terminated = true;
        self.label(ok.as_str());
        proof {
            assert(ok@ =~= "bounds_ok_"@ + spec_decimal(old(self).next_block as nat));
            assert(trap@ =~= "bounds_trap_"@ + spec_decimal((old(self).next_block + 1) as nat));
        }
        Ok(())
    }
}

} // verus!
