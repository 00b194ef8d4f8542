//! Type descriptions of the values that a closure reads and produces.
use vstd::prelude::*;

verus! {

/// The type of a value handled by a compiled closure.
#[derive(Debug, PartialEq, Eq)]
pub enum TypeInfo {
    F32,
    F64,
    I8,
    I16,
    I32,
    I64,
    I128,
    U8,
    U16,
    U32,
    U64,
    U128,
    Usize,
    Bool,
    Array { element: Box<TypeInfo>, length: usize },
    Slice { element: Box<TypeInfo> },
    Struct { name: String, fields: Vec<FieldInfo> },
}

/// A named field of a struct type.
#[derive(Debug, PartialEq, Eq)]
pub struct FieldInfo {
    pub name: String,
    pub type_info: TypeInfo,
}

/// The mathematical model of a [`TypeInfo`]: names are character sequences
/// and the fields of a struct are a sequence.
pub enum TypeModel {
    F32,
    F64,
    I8,
    I16,
    I32,
    I64,
    I128,
    U8,
    U16,
    U32,
    U64,
    U128,
    Usize,
    Bool,
    Array { element: Box<TypeModel>, length: nat },
    Slice { element: Box<TypeModel> },
    Struct { name: Seq<char>, fields: Seq<FieldModel> },
}

/// The mathematical model of a [`FieldInfo`].
pub struct FieldModel {
    pub name: Seq<char>,
    pub type_info: TypeModel,
}

pub open spec fn type_model(t: TypeInfo) -> TypeModel
    decreases t, 0nat,
{
    match t {
        TypeInfo::F32 => TypeModel::F32,
        TypeInfo::F64 => TypeModel::F64,
        TypeInfo::I8 => TypeModel::I8,
        TypeInfo::I16 => TypeModel::I16,
        TypeInfo::I32 => TypeModel::I32,
        TypeInfo::I64 => TypeModel::I64,
        TypeInfo::I128 => TypeModel::I128,
        TypeInfo::U8 => TypeModel::U8,
        TypeInfo::U16 => TypeModel::U16,
        TypeInfo::U32 => TypeModel::U32,
        TypeInfo::U64 => TypeModel::U64,
        TypeInfo::U128 => TypeModel::U128,
        TypeInfo::Usize => TypeModel::Usize,
        TypeInfo::Bool => TypeModel::Bool,
        TypeInfo::Array { element, length } => TypeModel::Array {
            element: Box::new(type_model(*element)),
            length: length as nat,
        },
        TypeInfo::Slice { element } => TypeModel::Slice { element: Box::new(type_model(*element)) },
        TypeInfo::Struct { name, fields } => {
            proof {
                assert(decreases_to!(fields => fields@));
            }
            TypeModel::Struct { name: name@, fields: fields_model(fields@) }
        },
    }
}

pub open spec fn fields_model(fields: Seq<FieldInfo>) -> Seq<FieldModel>
    decreases fields, 1nat,
{
    if fields.len() == 0 {
        Seq::empty()
    } else {
        seq![FieldModel { name: fields[0].name@, type_info: type_model(fields[0].type_info) }]
            + fields_model(fields.subrange(1, fields.len() as int))
    }
}

impl View for TypeInfo {
    type V = TypeModel;

    open spec fn view(&self) -> TypeModel {
        type_model(*self)
    }
}

impl View for FieldInfo {
    type V = FieldModel;

    open spec fn view(&self) -> FieldModel {
        FieldModel { name: self.name@, type_info: self.type_info@ }
    }
}


/// The models of a sequence of types.
pub open spec fn type_models(types: Seq<TypeInfo>) -> Seq<TypeModel> {
    types.map_values(|t: TypeInfo| t@)
}

/// The model of a sequence of fields has one entry per field, in order.
pub proof fn lemma_fields_model(fields: Seq<FieldInfo>)
    ensures
        fields_model(fields).len() == fields.len(),
        forall|i: int| 0 <= i < fields.len() ==> #[trigger] fields_model(fields)[i] == fields[i]@,
    decreases fields.len(),
{
    if fields.len() > 0 {
        let rest = fields.subrange(1, fields.len() as int);
        lemma_fields_model(rest);
        assert forall|i: int| 0 <= i < fields.len() implies #[trigger] fields_model(fields)[i]
            == fields[i]@ by {
            if i > 0 {
                assert(rest[i - 1] == fields[i]);
            }
        }
    }
}

impl TypeInfo {
    pub fn is_float(&self) -> (r: bool)
        ensures
            r == (self is F32 || self is F64),
    {
        matches!(self, TypeInfo::F32 | TypeInfo::F64)
    }

    pub fn is_signed_integer(&self) -> (r: bool)
        ensures
            r == (self is I8 || self is I16 || self is I32 || self is I64 || self is I128),
    {
        matches!(self, TypeInfo::I8 | TypeInfo::I16 | TypeInfo::I32 | TypeInfo::I64 | TypeInfo::I128)
    }

    pub fn is_unsigned_integer(&self) -> (r: bool)
        ensures
            r == (self is U8 || self is U16 || self is U32 || self is U64 || self is U128
                || self is Usize),
    {
        matches!(
            self,
            TypeInfo::U8 | TypeInfo::U16 | TypeInfo::U32 | TypeInfo::U64 | TypeInfo::U128
                | TypeInfo::Usize
        )
    }

    /// Integers in the sense of the code generator: every type that lowers to
    /// an LLVM integer, which includes `bool`.
    pub fn is_integer(&self) -> (r: bool)
        ensures
            r == (self.spec_is_signed() || self.spec_is_unsigned() || self is Bool),
    {
        self.is_signed_integer() || self.is_unsigned_integer() || self.is_bool()
    }

    pub fn is_usize(&self) -> (r: bool)
        ensures
            r == (self is Usize),
    {
        matches!(self, TypeInfo::Usize)
    }

    pub fn is_bool(&self) -> (r: bool)
        ensures
            r == (self is Bool),
    {
        matches!(self, TypeInfo::Bool)
    }

    pub fn is_numeric(&self) -> (r: bool)
        ensures
            r == (self.spec_is_float() || self.spec_is_signed() || self.spec_is_unsigned()),
    {
        self.is_float() || self.is_signed_integer() || self.is_unsigned_integer()
    }

    /// The element type of an array or a slice.
    pub fn indexed_element_type(&self) -> (r: Option<&TypeInfo>)
        ensures
            r == self.spec_element(),
    {
        match self {
            TypeInfo::Array { element, .. } => Some(&**element),
            TypeInfo::Slice { element } => Some(&**element),
            _ => None,
        }
    }

    pub fn is_indexable(&self) -> (r: bool)
        ensures
            r == (self is Array || self is Slice),
    {
        self.indexed_element_type().is_some()
    }

    pub open spec fn spec_is_float(&self) -> bool {
        self is F32 || self is F64
    }

    pub open spec fn spec_is_signed(&self) -> bool {
        self is I8 || self is I16 || self is I32 || self is I64 || self is I128
    }

    pub open spec fn spec_is_unsigned(&self) -> bool {
        self is U8 || self is U16 || self is U32 || self is U64 || self is U128 || self is Usize
    }

    pub open spec fn spec_element(&self) -> Option<&TypeInfo> {
        match self {
            TypeInfo::Array { element, .. } => Some(&**element),
            TypeInfo::Slice { element } => Some(&**element),
            _ => None,
        }
    }
}

/// Structural equality of two types: the same variant, the same lengths and
/// names, and structurally equal component types.
pub fn same_type(a: &TypeInfo, b: &TypeInfo) -> (r: bool)
    ensures
        r == (a@ == b@),
    decreases a,
{
    match (a, b) {
        (TypeInfo::F32, TypeInfo::F32) => true,
        (TypeInfo::F64, TypeInfo::F64) => true,
        (TypeInfo::I8, TypeInfo::I8) => true,
        (TypeInfo::I16, TypeInfo::I16) => true,
        (TypeInfo::I32, TypeInfo::I32) => true,
        (TypeInfo::I64, TypeInfo::I64) => true,
        (TypeInfo::I128, TypeInfo::I128) => true,
        (TypeInfo::U8, TypeInfo::U8) => true,
        (TypeInfo::U16, TypeInfo::U16) => true,
        (TypeInfo::U32, TypeInfo::U32) => true,
        (TypeInfo::U64, TypeInfo::U64) => true,
        (TypeInfo::U128, TypeInfo::U128) => true,
        (TypeInfo::Usize, TypeInfo::Usize) => true,
        (TypeInfo::Bool, TypeInfo::Bool) => true,
        (
            TypeInfo::Array { element: e1, length: l1 },
            TypeInfo::Array { element: e2, length: l2 },
        ) => *l1 == *l2 && same_type(e1, e2),
        (TypeInfo::Slice { element: e1 }, TypeInfo::Slice { element: e2 }) => same_type(e1, e2),
        (TypeInfo::Struct { name: n1, fields: f1 }, TypeInfo::Struct { name: n2, fields: f2 }) => {
            proof {
                lemma_fields_model(f1@);
                lemma_fields_model(f2@);
            }
            if !(*n1 == *n2) || f1.len() != f2.len() {
                return false;
            }
            let mut i: usize = 0;
            while i < f1.len()
                invariant
                    f1.len() == f2.len(),
                    0 <= i <= f1.len(),
                    *a == (TypeInfo::Struct { name: *n1, fields: *f1 }),
                    a@ == (TypeModel::Struct { name: n1@, fields: fields_model(f1@) }),
                    b@ == (TypeModel::Struct { name: n2@, fields: fields_model(f2@) }),
                    fields_model(f1@).len() == f1@.len(),
                    fields_model(f2@).len() == f2@.len(),
                    forall|k: int| 0 <= k < f1.len() ==> #[trigger] fields_model(f1@)[k] == f1@[k]@,
                    forall|k: int| 0 <= k < f2.len() ==> #[trigger] fields_model(f2@)[k] == f2@[k]@,
                    forall|k: int| 0 <= k < i ==> #[trigger] f1@[k]@ == f2@[k]@,
                decreases f1.len() - i,
            {
                if !(f1[i].name == f2[i].name) {
                    assert(fields_model(f1@)[i as int] != fields_model(f2@)[i as int]);
                    return false;
                }
                proof {
                    assert(decreases_to!(*a => (*a)->fields));
                    assert(decreases_to!(*f1 => f1@));
                    assert(decreases_to!(f1@ => f1@[i as int]));
                }
                if !same_type(&f1[i].type_info, &f2[i].type_info) {
                    assert(fields_model(f1@)[i as int] != fields_model(f2@)[i as int]);
                    return false;
                }
                i = i + 1;
            }
            assert(fields_model(f1@) =~= fields_model(f2@));
            true
        },
        _ => false,
    }
}


/// Two field sequences whose entries have equal models have equal models.
pub proof fn lemma_fields_model_ext(a: Seq<FieldInfo>, b: Seq<FieldInfo>)
    requires
        a.len() == b.len(),
        forall|k: int| 0 <= k < a.len() ==> #[trigger] a[k]@ == b[k]@,
    ensures
        fields_model(a) == fields_model(b),
{
    lemma_fields_model(a);
    lemma_fields_model(b);
    assert(fields_model(a) =~= fields_model(b));
}

/// A copy of a type description with the same model.
pub fn clone_type(t: &TypeInfo) -> (r: TypeInfo)
    ensures
        r@ == t@,
    decreases t,
{
    match t {
        TypeInfo::F32 => TypeInfo::F32,
        TypeInfo::F64 => TypeInfo::F64,
        TypeInfo::I8 => TypeInfo::I8,
        TypeInfo::I16 => TypeInfo::I16,
        TypeInfo::I32 => TypeInfo::I32,
        TypeInfo::I64 => TypeInfo::I64,
        TypeInfo::I128 => TypeInfo::I128,
        TypeInfo::U8 => TypeInfo::U8,
        TypeInfo::U16 => TypeInfo::U16,
        TypeInfo::U32 => TypeInfo::U32,
        TypeInfo::U64 => TypeInfo::U64,
        TypeInfo::U128 => TypeInfo::U128,
        TypeInfo::Usize => TypeInfo::Usize,
        TypeInfo::Bool => TypeInfo::Bool,
        TypeInfo::Array { element, length } => TypeInfo::Array {
            element: Box::new(clone_type(element)),
            length: *length,
        },
        TypeInfo::Slice { element } => TypeInfo::Slice { element: Box::new(clone_type(element)) },
        TypeInfo::Struct { name, fields } => {
            let mut out: Vec<FieldInfo> = Vec::new();
            let mut i: usize = 0;
            while i < fields.len()
                invariant
                    0 <= i <= fields.len(),
                    *t == (TypeInfo::Struct { name: *name, fields: *fields }),
                    out@.len() == i,
                    forall|k: int| 0 <= k < i ==> #[trigger] out@[k]@ == fields@[k]@,
                decreases fields.len() - i,
            {
                proof {
                    assert(decreases_to!(*t => (*t)->fields));
                    assert(decreases_to!(*fields => fields@));
                    assert(decreases_to!(fields@ => fields@[i as int]));
                }
                let field = FieldInfo {
                    name: fields[i].name.clone(),
                    type_info: clone_type(&fields[i].type_info),
                };
                out.push(field);
                i = i + 1;
            }
            proof {
                lemma_fields_model_ext(out@, fields@);
            }
            TypeInfo::Struct { name: name.clone(), fields: out }
        },
    }
}

/// A copy of a field description with the same model.
pub fn clone_field(f: &FieldInfo) -> (r: FieldInfo)
    ensures
        r@ == f@,
{
    FieldInfo { name: f.name.clone(), type_info: clone_type(&f.type_info) }
}

impl Clone for TypeInfo {
    fn clone(&self) -> (r: Self)
        ensures
            r@ == self@,
    {
        clone_type(self)
    }
}

impl Clone for FieldInfo {
    fn clone(&self) -> (r: Self)
        ensures
            r@ == self@,
    {
        clone_field(self)
    }
}


/// A Rust type that closures can take and return, and its description.
pub trait CompileType {
    /// The model of the description of the type.
    spec fn type_model() -> TypeModel;

    /// The description of the type.
    fn type_info() -> (r: TypeInfo)
        ensures
            r@ == Self::type_model(),
    ;
}

impl CompileType for i8 {
    open spec fn type_model() -> TypeModel {
        TypeModel::I8
    }

    fn type_info() -> (r: TypeInfo) {
        TypeInfo::I8
    }
}

impl CompileType for i16 {
    open spec fn type_model() -> TypeModel {
        TypeModel::I16
    }

    fn type_info() -> (r: TypeInfo) {
        TypeInfo::I16
    }
}

impl CompileType for i32 {
    open spec fn type_model() -> TypeModel {
        TypeModel::I32
    }

    fn type_info() -> (r: TypeInfo) {
        TypeInfo::I32
    }
}

impl CompileType for i64 {
    open spec fn type_model() -> TypeModel {
        TypeModel::I64
    }

    fn type_info() -> (r: TypeInfo) {
        TypeInfo::I64
    }
}

impl CompileType for i128 {
    open spec fn type_model() -> TypeModel {
        TypeModel::I128
    }

    fn type_info() -> (r: TypeInfo) {
        TypeInfo::I128
    }
}

impl CompileType for u8 {
    open spec fn type_model() -> TypeModel {
        TypeModel::U8
    }

    fn type_info() -> (r: TypeInfo) {
        TypeInfo::U8
    }
}

impl CompileType for u16 {
    open spec fn type_model() -> TypeModel {
        TypeModel::U16
    }

    fn type_info() -> (r: TypeInfo) {
        TypeInfo::U16
    }
}

impl CompileType for u32 {
    open spec fn type_model() -> TypeModel {
        TypeModel::U32
    }

    fn type_info() -> (r: TypeInfo) {
        TypeInfo::U32
    }
}

impl CompileType for u64 {
    open spec fn type_model() -> TypeModel {
        TypeModel::U64
    }

    fn type_info() -> (r: TypeInfo) {
        TypeInfo::U64
    }
}

impl CompileType for u128 {
    open spec fn type_model() -> TypeModel {
        TypeModel::U128
    }

    fn type_info() -> (r: TypeInfo) {
        TypeInfo::U128
    }
}

impl CompileType for usize {
    open spec fn type_model() -> TypeModel {
        TypeModel::Usize
    }

    fn type_info() -> (r: TypeInfo) {
        TypeInfo::Usize
    }
}

impl CompileType for bool {
    open spec fn type_model() -> TypeModel {
        TypeModel::Bool
    }

    fn type_info() -> (r: TypeInfo) {
        TypeInfo::Bool
    }
}

impl<T: CompileType, const N: usize> CompileType for [T; N] {
    open spec fn type_model() -> TypeModel {
        TypeModel::Array { element: Box::new(T::type_model()), length: N as nat }
    }

    fn type_info() -> (r: TypeInfo) {
        TypeInfo::Array { element: Box::new(T::type_info()), length: N }
    }
}

impl<'a, T: CompileType> CompileType for &'a [T] {
    open spec fn type_model() -> TypeModel {
        TypeModel::Slice { element: Box::new(T::type_model()) }
    }

    fn type_info() -> (r: TypeInfo) {
        TypeInfo::Slice { element: Box::new(T::type_info()) }
    }
}

impl<'a, T: CompileType> CompileType for &'a mut [T] {
    open spec fn type_model() -> TypeModel {
        TypeModel::Slice { element: Box::new(T::type_model()) }
    }

    fn type_info() -> (r: TypeInfo) {
        TypeInfo::Slice { element: Box::new(T::type_info()) }
    }
}

impl CompileType for () {
    open spec fn type_model() -> TypeModel {
        TypeModel::Struct { name: "()"@, fields: Seq::empty() }
    }

    fn type_info() -> (r: TypeInfo) {
        let fields: Vec<FieldInfo> = Vec::new();
        let r = TypeInfo::Struct { name: "()".to_string(), fields };
        proof {
            assert(fields_model(fields@) =~= Seq::<FieldModel>::empty());
        }
        r
    }
}

impl<A: CompileType> CompileType for (A,) {
    open spec fn type_model() -> TypeModel {
        TypeModel::Struct {
            name: "(A,)"@,
            fields: seq![FieldModel { name: "0"@, type_info: A::type_model() }],
        }
    }

    fn type_info() -> (r: TypeInfo) {
        let mut fields: Vec<FieldInfo> = Vec::new();
        fields.push(FieldInfo { name: "0".to_string(), type_info: A::type_info() });
        proof {
            lemma_fields_model(fields@);
            assert(fields_model(fields@) =~= seq![FieldModel { name: "0"@, type_info: A::type_model() }]);
        }
        TypeInfo::Struct { name: "(A,)".to_string(), fields }
    }
}

impl<A: CompileType, B: CompileType> CompileType for (A, B,) {
    open spec fn type_model() -> TypeModel {
        TypeModel::Struct {
            name: "(A, B,)"@,
            fields: seq![FieldModel { name: "0"@, type_info: A::type_model() }, FieldModel { name: "1"@, type_info: B::type_model() }],
        }
    }

    fn type_info() -> (r: TypeInfo) {
        let mut fields: Vec<FieldInfo> = Vec::new();
        fields.push(FieldInfo { name: "0".to_string(), type_info: A::type_info() });
        fields.push(FieldInfo { name: "1".to_string(), type_info: B::type_info() });
        proof {
            lemma_fields_model(fields@);
            assert(fields_model(fields@) =~= seq![FieldModel { name: "0"@, type_info: A::type_model() }, FieldModel { name: "1"@, type_info: B::type_model() }]);
        }
        TypeInfo::Struct { name: "(A, B,)".to_string(), fields }
    }
}

impl<A: CompileType, B: CompileType, C: CompileType> CompileType for (A, B, C,) {
    open spec fn type_model() -> TypeModel {
        TypeModel::Struct {
            name: "(A, B, C,)"@,
            fields: seq![FieldModel { name: "0"@, type_info: A::type_model() }, FieldModel { name: "1"@, type_info: B::type_model() }, FieldModel { name: "2"@, type_info: C::type_model() }],
        }
    }

    fn type_info() -> (r: TypeInfo) {
        let mut fields: Vec<FieldInfo> = Vec::new();
        fields.push(FieldInfo { name: "0".to_string(), type_info: A::type_info() });
        fields.push(FieldInfo { name: "1".to_string(), type_info: B::type_info() });
        fields.push(FieldInfo { name: "2".to_string(), type_info: C::type_info() });
        proof {
            lemma_fields_model(fields@);
            assert(fields_model(fields@) =~= seq![FieldModel { name: "0"@, type_info: A::type_model() }, FieldModel { name: "1"@, type_info: B::type_model() }, FieldModel { name: "2"@, type_info: C::type_model() }]);
        }
        TypeInfo::Struct { name: "(A, B, C,)".to_string(), fields }
    }
}

impl<A: CompileType, B: CompileType, C: CompileType, D: CompileType> CompileType for (A, B, C, D,) {
    open spec fn type_model() -> TypeModel {
        TypeModel::Struct {
            name: "(A, B, C, D,)"@,
            fields: seq![FieldModel { name: "0"@, type_info: A::type_model() }, FieldModel { name: "1"@, type_info: B::type_model() }, FieldModel { name: "2"@, type_info: C::type_model() }, FieldModel { name: "3"@, type_info: D::type_model() }],
        }
    }

    fn type_info() -> (r: TypeInfo) {
        let mut fields: Vec<FieldInfo> = Vec::new();
        fields.push(FieldInfo { name: "0".to_string(), type_info: A::type_info() });
        fields.push(FieldInfo { name: "1".to_string(), type_info: B::type_info() });
        fields.push(FieldInfo { name: "2".to_string(), type_info: C::type_info() });
        fields.push(FieldInfo { name: "3".to_string(), type_info: D::type_info() });
        proof {
            lemma_fields_model(fields@);
            assert(fields_model(fields@) =~= seq![FieldModel { name: "0"@, type_info: A::type_model() }, FieldModel { name: "1"@, type_info: B::type_model() }, FieldModel { name: "2"@, type_info: C::type_model() }, FieldModel { name: "3"@, type_info: D::type_model() }]);
        }
        TypeInfo::Struct { name: "(A, B, C, D,)".to_string(), fields }
    }
}

impl<A: CompileType, B: CompileType, C: CompileType, D: CompileType, E: CompileType> CompileType for (A, B, C, D, E,) {
    open spec fn type_model() -> TypeModel {
        TypeModel::Struct {
            name: "(A, B, C, D, E,)"@,
            fields: seq![FieldModel { name: "0"@, type_info: A::type_model() }, FieldModel { name: "1"@, type_info: B::type_model() }, FieldModel { name: "2"@, type_info: C::type_model() }, FieldModel { name: "3"@, type_info: D::type_model() }, FieldModel { name: "4"@, type_info: E::type_model() }],
        }
    }

    fn type_info() -> (r: TypeInfo) {
        let mut fields: Vec<FieldInfo> = Vec::new();
        fields.push(FieldInfo { name: "0".to_string(), type_info: A::type_info() });
        fields.push(FieldInfo { name: "1".to_string(), type_info: B::type_info() });
        fields.push(FieldInfo { name: "2".to_string(), type_info: C::type_info() });
        fields.push(FieldInfo { name: "3".to_string(), type_info: D::type_info() });
        fields.push(FieldInfo { name: "4".to_string(), type_info: E::type_info() });
        proof {
            lemma_fields_model(fields@);
            assert(fields_model(fields@) =~= seq![FieldModel { name: "0"@, type_info: A::type_model() }, FieldModel { name: "1"@, type_info: B::type_model() }, FieldModel { name: "2"@, type_info: C::type_model() }, FieldModel { name: "3"@, type_info: D::type_model() }, FieldModel { name: "4"@, type_info: E::type_model() }]);
        }
        TypeInfo::Struct { name: "(A, B, C, D, E,)".to_string(), fields }
    }
}

impl<A: CompileType, B: CompileType, C: CompileType, D: CompileType, E: CompileType, F: CompileType> CompileType for (A, B, C, D, E, F,) {
    open spec fn type_model() -> TypeModel {
        TypeModel::Struct {
            name: "(A, B, C, D, E, F,)"@,
            fields: seq![FieldModel { name: "0"@, type_info: A::type_model() }, FieldModel { name: "1"@, type_info: B::type_model() }, FieldModel { name: "2"@, type_info: C::type_model() }, FieldModel { name: "3"@, type_info: D::type_model() }, FieldModel { name: "4"@, type_info: E::type_model() }, FieldModel { name: "5"@, type_info: F::type_model() }],
        }
    }

    fn type_info() -> (r: TypeInfo) {
        let mut fields: Vec<FieldInfo> = Vec::new();
        fields.push(FieldInfo { name: "0".to_string(), type_info: A::type_info() });
        fields.push(FieldInfo { name: "1".to_string(), type_info: B::type_info() });
        fields.push(FieldInfo { name: "2".to_string(), type_info: C::type_info() });
        fields.push(FieldInfo { name: "3".to_string(), type_info: D::type_info() });
        fields.push(FieldInfo { name: "4".to_string(), type_info: E::type_info() });
        fields.push(FieldInfo { name: "5".to_string(), type_info: F::type_info() });
        proof {
            lemma_fields_model(fields@);
            assert(fields_model(fields@) =~= seq![FieldModel { name: "0"@, type_info: A::type_model() }, FieldModel { name: "1"@, type_info: B::type_model() }, FieldModel { name: "2"@, type_info: C::type_model() }, FieldModel { name: "3"@, type_info: D::type_model() }, FieldModel { name: "4"@, type_info: E::type_model() }, FieldModel { name: "5"@, type_info: F::type_model() }]);
        }
        TypeInfo::Struct { name: "(A, B, C, D, E, F,)".to_string(), fields }
    }
}

impl<A: CompileType, B: CompileType, C: CompileType, D: CompileType, E: CompileType, F: CompileType, G: CompileType> CompileType for (A, B, C, D, E, F, G,) {
    open spec fn type_model() -> TypeModel {
        TypeModel::Struct {
            name: "(A, B, C, D, E, F, G,)"@,
            fields: seq![FieldModel { name: "0"@, type_info: A::type_model() }, FieldModel { name: "1"@, type_info: B::type_model() }, FieldModel { name: "2"@, type_info: C::type_model() }, FieldModel { name: "3"@, type_info: D::type_model() }, FieldModel { name: "4"@, type_info: E::type_model() }, FieldModel { name: "5"@, type_info: F::type_model() }, FieldModel { name: "6"@, type_info: G::type_model() }],
        }
    }

    fn type_info() -> (r: TypeInfo) {
        let mut fields: Vec<FieldInfo> = Vec::new();
        fields.push(FieldInfo { name: "0".to_string(), type_info: A::type_info() });
        fields.push(FieldInfo { name: "1".to_string(), type_info: B::type_info() });
        fields.push(FieldInfo { name: "2".to_string(), type_info: C::type_info() });
        fields.push(FieldInfo { name: "3".to_string(), type_info: D::type_info() });
        fields.push(FieldInfo { name: "4".to_string(), type_info: E::type_info() });
        fields.push(FieldInfo { name: "5".to_string(), type_info: F::type_info() });
        fields.push(FieldInfo { name: "6".to_string(), type_info: G::type_info() });
        proof {
            lemma_fields_model(fields@);
            assert(fields_model(fields@) =~= seq![FieldModel { name: "0"@, type_info: A::type_model() }, FieldModel { name: "1"@, type_info: B::type_model() }, FieldModel { name: "2"@, type_info: C::type_model() }, FieldModel { name: "3"@, type_info: D::type_model() }, FieldModel { name: "4"@, type_info: E::type_model() }, FieldModel { name: "5"@, type_info: F::type_model() }, FieldModel { name: "6"@, type_info: G::type_model() }]);
        }
        TypeInfo::Struct { name: "(A, B, C, D, E, F, G,)".to_string(), fields }
    }
}

impl<A: CompileType, B: CompileType, C: CompileType, D: CompileType, E: CompileType, F: CompileType, G: CompileType, H: CompileType> CompileType for (A, B, C, D, E, F, G, H,) {
    open spec fn type_model() -> TypeModel {
        TypeModel::Struct {
            name: "(A, B, C, D, E, F, G, H,)"@,
            fields: seq![FieldModel { name: "0"@, type_info: A::type_model() }, FieldModel { name: "1"@, type_info: B::type_model() }, FieldModel { name: "2"@, type_info: C::type_model() }, FieldModel { name: "3"@, type_info: D::type_model() }, FieldModel { name: "4"@, type_info: E::type_model() }, FieldModel { name: "5"@, type_info: F::type_model() }, FieldModel { name: "6"@, type_info: G::type_model() }, FieldModel { name: "7"@, type_info: H::type_model() }],
        }
    }

    fn type_info() -> (r: TypeInfo) {
        let mut fields: Vec<FieldInfo> = Vec::new();
        fields.push(FieldInfo { name: "0".to_string(), type_info: A::type_info() });
        fields.push(FieldInfo { name: "1".to_string(), type_info: B::type_info() });
        fields.push(FieldInfo { name: "2".to_string(), type_info: C::type_info() });
        fields.push(FieldInfo { name: "3".to_string(), type_info: D::type_info() });
        fields.push(FieldInfo { name: "4".to_string(), type_info: E::type_info() });
        fields.push(FieldInfo { name: "5".to_string(), type_info: F::type_info() });
        fields.push(FieldInfo { name: "6".to_string(), type_info: G::type_info() });
        fields.push(FieldInfo { name: "7".to_string(), type_info: H::type_info() });
        proof {
            lemma_fields_model(fields@);
            assert(fields_model(fields@) =~= seq![FieldModel { name: "0"@, type_info: A::type_model() }, FieldModel { name: "1"@, type_info: B::type_model() }, FieldModel { name: "2"@, type_info: C::type_model() }, FieldModel { name: "3"@, type_info: D::type_model() }, FieldModel { name: "4"@, type_info: E::type_model() }, FieldModel { name: "5"@, type_info: F::type_model() }, FieldModel { name: "6"@, type_info: G::type_model() }, FieldModel { name: "7"@, type_info: H::type_model() }]);
        }
        TypeInfo::Struct { name: "(A, B, C, D, E, F, G, H,)".to_string(), fields }
    }
}

impl<A: CompileType, B: CompileType, C: CompileType, D: CompileType, E: CompileType, F: CompileType, G: CompileType, H: CompileType, I: CompileType> CompileType for (A, B, C, D, E, F, G, H, I,) {
    open spec fn type_model() -> TypeModel {
        TypeModel::Struct {
            name: "(A, B, C, D, E, F, G, H, I,)"@,
            fields: seq![FieldModel { name: "0"@, type_info: A::type_model() }, FieldModel { name: "1"@, type_info: B::type_model() }, FieldModel { name: "2"@, type_info: C::type_model() }, FieldModel { name: "3"@, type_info: D::type_model() }, FieldModel { name: "4"@, type_info: E::type_model() }, FieldModel { name: "5"@, type_info: F::type_model() }, FieldModel { name: "6"@, type_info: G::type_model() }, FieldModel { name: "7"@, type_info: H::type_model() }, FieldModel { name: "8"@, type_info: I::type_model() }],
        }
    }

    fn type_info() -> (r: TypeInfo) {
        let mut fields: Vec<FieldInfo> = Vec::new();
        fields.push(FieldInfo { name: "0".to_string(), type_info: A::type_info() });
        fields.push(FieldInfo { name: "1".to_string(), type_info: B::type_info() });
        fields.push(FieldInfo { name: "2".to_string(), type_info: C::type_info() });
        fields.push(FieldInfo { name: "3".to_string(), type_info: D::type_info() });
        fields.push(FieldInfo { name: "4".to_string(), type_info: E::type_info() });
        fields.push(FieldInfo { name: "5".to_string(), type_info: F::type_info() });
        fields.push(FieldInfo { name: "6".to_string(), type_info: G::type_info() });
        fields.push(FieldInfo { name: "7".to_string(), type_info: H::type_info() });
        fields.push(FieldInfo { name: "8".to_string(), type_info: I::type_info() });
        proof {
            lemma_fields_model(fields@);
            assert(fields_model(fields@) =~= seq![FieldModel { name: "0"@, type_info: A::type_model() }, FieldModel { name: "1"@, type_info: B::type_model() }, FieldModel { name: "2"@, type_info: C::type_model() }, FieldModel { name: "3"@, type_info: D::type_model() }, FieldModel { name: "4"@, type_info: E::type_model() }, FieldModel { name: "5"@, type_info: F::type_model() }, FieldModel { name: "6"@, type_info: G::type_model() }, FieldModel { name: "7"@, type_info: H::type_model() }, FieldModel { name: "8"@, type_info: I::type_model() }]);
        }
        TypeInfo::Struct { name: "(A, B, C, D, E, F, G, H, I,)".to_string(), fields }
    }
}

impl<A: CompileType, B: CompileType, C: CompileType, D: CompileType, E: CompileType, F: CompileType, G: CompileType, H: CompileType, I: CompileType, J: CompileType> CompileType for (A, B, C, D, E, F, G, H, I, J,) {
    open spec fn type_model() -> TypeModel {
        TypeModel::Struct {
            name: "(A, B, C, D, E, F, G, H, I, J,)"@,
            fields: seq![FieldModel { name: "0"@, type_info: A::type_model() }, FieldModel { name: "1"@, type_info: B::type_model() }, FieldModel { name: "2"@, type_info: C::type_model() }, FieldModel { name: "3"@, type_info: D::type_model() }, FieldModel { name: "4"@, type_info: E::type_model() }, FieldModel { name: "5"@, type_info: F::type_model() }, FieldModel { name: "6"@, type_info: G::type_model() }, FieldModel { name: "7"@, type_info: H::type_model() }, FieldModel { name: "8"@, type_info: I::type_model() }, FieldModel { name: "9"@, type_info: J::type_model() }],
        }
    }

    fn type_info() -> (r: TypeInfo) {
        let mut fields: Vec<FieldInfo> = Vec::new();
        fields.push(FieldInfo { name: "0".to_string(), type_info: A::type_info() });
        fields.push(FieldInfo { name: "1".to_string(), type_info: B::type_info() });
        fields.push(FieldInfo { name: "2".to_string(), type_info: C::type_info() });
        fields.push(FieldInfo { name: "3".to_string(), type_info: D::type_info() });
        fields.push(FieldInfo { name: "4".to_string(), type_info: E::type_info() });
        fields.push(FieldInfo { name: "5".to_string(), type_info: F::type_info() });
        fields.push(FieldInfo { name: "6".to_string(), type_info: G::type_info() });
        fields.push(FieldInfo { name: "7".to_string(), type_info: H::type_info() });
        fields.push(FieldInfo { name: "8".to_string(), type_info: I::type_info() });
        fields.push(FieldInfo { name: "9".to_string(), type_info: J::type_info() });
        proof {
            lemma_fields_model(fields@);
            assert(fields_model(fields@) =~= seq![FieldModel { name: "0"@, type_info: A::type_model() }, FieldModel { name: "1"@, type_info: B::type_model() }, FieldModel { name: "2"@, type_info: C::type_model() }, FieldModel { name: "3"@, type_info: D::type_model() }, FieldModel { name: "4"@, type_info: E::type_model() }, FieldModel { name: "5"@, type_info: F::type_model() }, FieldModel { name: "6"@, type_info: G::type_model() }, FieldModel { name: "7"@, type_info: H::type_model() }, FieldModel { name: "8"@, type_info: I::type_model() }, FieldModel { name: "9"@, type_info: J::type_model() }]);
        }
        TypeInfo::Struct { name: "(A, B, C, D, E, F, G, H, I, J,)".to_string(), fields }
    }
}

impl<A: CompileType, B: CompileType, C: CompileType, D: CompileType, E: CompileType, F: CompileType, G: CompileType, H: CompileType, I: CompileType, J: CompileType, K: CompileType> CompileType for (A, B, C, D, E, F, G, H, I, J, K,) {
    open spec fn type_model() -> TypeModel {
        TypeModel::Struct {
            name: "(A, B, C, D, E, F, G, H, I, J, K,)"@,
            fields: seq![FieldModel { name: "0"@, type_info: A::type_model() }, FieldModel { name: "1"@, type_info: B::type_model() }, FieldModel { name: "2"@, type_info: C::type_model() }, FieldModel { name: "3"@, type_info: D::type_model() }, FieldModel { name: "4"@, type_info: E::type_model() }, FieldModel { name: "5"@, type_info: F::type_model() }, FieldModel { name: "6"@, type_info: G::type_model() }, FieldModel { name: "7"@, type_info: H::type_model() }, FieldModel { name: "8"@, type_info: I::type_model() }, FieldModel { name: "9"@, type_info: J::type_model() }, FieldModel { name: "10"@, type_info: K::type_model() }],
        }
    }

    fn type_info() -> (r: TypeInfo) {
        let mut fields: Vec<FieldInfo> = Vec::new();
        fields.push(FieldInfo { name: "0".to_string(), type_info: A::type_info() });
        fields.push(FieldInfo { name: "1".to_string(), type_info: B::type_info() });
        fields.push(FieldInfo { name: "2".to_string(), type_info: C::type_info() });
        fields.push(FieldInfo { name: "3".to_string(), type_info: D::type_info() });
        fields.push(FieldInfo { name: "4".to_string(), type_info: E::type_info() });
        fields.push(FieldInfo { name: "5".to_string(), type_info: F::type_info() });
        fields.push(FieldInfo { name: "6".to_string(), type_info: G::type_info() });
        fields.push(FieldInfo { name: "7".to_string(), type_info: H::type_info() });
        fields.push(FieldInfo { name: "8".to_string(), type_info: I::type_info() });
        fields.push(FieldInfo { name: "9".to_string(), type_info: J::type_info() });
        fields.push(FieldInfo { name: "10".to_string(), type_info: K::type_info() });
        proof {
            lemma_fields_model(fields@);
            assert(fields_model(fields@) =~= seq![FieldModel { name: "0"@, type_info: A::type_model() }, FieldModel { name: "1"@, type_info: B::type_model() }, FieldModel { name: "2"@, type_info: C::type_model() }, FieldModel { name: "3"@, type_info: D::type_model() }, FieldModel { name: "4"@, type_info: E::type_model() }, FieldModel { name: "5"@, type_info: F::type_model() }, FieldModel { name: "6"@, type_info: G::type_model() }, FieldModel { name: "7"@, type_info: H::type_model() }, FieldModel { name: "8"@, type_info: I::type_model() }, FieldModel { name: "9"@, type_info: J::type_model() }, FieldModel { name: "10"@, type_info: K::type_model() }]);
        }
        TypeInfo::Struct { name: "(A, B, C, D, E, F, G, H, I, J, K,)".to_string(), fields }
    }
}

impl<A: CompileType, B: CompileType, C: CompileType, D: CompileType, E: CompileType, F: CompileType, G: CompileType, H: CompileType, I: CompileType, J: CompileType, K: CompileType, L: CompileType> CompileType for (A, B, C, D, E, F, G, H, I, J, K, L,) {
    open spec fn type_model() -> TypeModel {
        TypeModel::Struct {
            name: "(A, B, C, D, E, F, G, H, I, J, K, L,)"@,
            fields: seq![FieldModel { name: "0"@, type_info: A::type_model() }, FieldModel { name: "1"@, type_info: B::type_model() }, FieldModel { name: "2"@, type_info: C::type_model() }, FieldModel { name: "3"@, type_info: D::type_model() }, FieldModel { name: "4"@, type_info: E::type_model() }, FieldModel { name: "5"@, type_info: F::type_model() }, FieldModel { name: "6"@, type_info: G::type_model() }, FieldModel { name: "7"@, type_info: H::type_model() }, FieldModel { name: "8"@, type_info: I::type_model() }, FieldModel { name: "9"@, type_info: J::type_model() }, FieldModel { name: "10"@, type_info: K::type_model() }, FieldModel { name: "11"@, type_info: L::type_model() }],
        }
    }

    fn type_info() -> (r: TypeInfo) {
        let mut fields: Vec<FieldInfo> = Vec::new();
        fields.push(FieldInfo { name: "0".to_string(), type_info: A::type_info() });
        fields.push(FieldInfo { name: "1".to_string(), type_info: B::type_info() });
        fields.push(FieldInfo { name: "2".to_string(), type_info: C::type_info() });
        fields.push(FieldInfo { name: "3".to_string(), type_info: D::type_info() });
        fields.push(FieldInfo { name: "4".to_string(), type_info: E::type_info() });
        fields.push(FieldInfo { name: "5".to_string(), type_info: F::type_info() });
        fields.push(FieldInfo { name: "6".to_string(), type_info: G::type_info() });
        fields.push(FieldInfo { name: "7".to_string(), type_info: H::type_info() });
        fields.push(FieldInfo { name: "8".to_string(), type_info: I::type_info() });
        fields.push(FieldInfo { name: "9".to_string(), type_info: J::type_info() });
        fields.push(FieldInfo { name: "10".to_string(), type_info: K::type_info() });
        fields.push(FieldInfo { name: "11".to_string(), type_info: L::type_info() });
        proof {
            lemma_fields_model(fields@);
            assert(fields_model(fields@) =~= seq![FieldModel { name: "0"@, type_info: A::type_model() }, FieldModel { name: "1"@, type_info: B::type_model() }, FieldModel { name: "2"@, type_info: C::type_model() }, FieldModel { name: "3"@, type_info: D::type_model() }, FieldModel { name: "4"@, type_info: E::type_model() }, FieldModel { name: "5"@, type_info: F::type_model() }, FieldModel { name: "6"@, type_info: G::type_model() }, FieldModel { name: "7"@, type_info: H::type_model() }, FieldModel { name: "8"@, type_info: I::type_model() }, FieldModel { name: "9"@, type_info: J::type_model() }, FieldModel { name: "10"@, type_info: K::type_model() }, FieldModel { name: "11"@, type_info: L::type_model() }]);
        }
        TypeInfo::Struct { name: "(A, B, C, D, E, F, G, H, I, J, K, L,)".to_string(), fields }
    }
}

impl<A: CompileType, B: CompileType, C: CompileType, D: CompileType, E: CompileType, F: CompileType, G: CompileType, H: CompileType, I: CompileType, J: CompileType, K: CompileType, L: CompileType, M: CompileType> CompileType for (A, B, C, D, E, F, G, H, I, J, K, L, M,) {
    open spec fn type_model() -> TypeModel {
        TypeModel::Struct {
            name: "(A, B, C, D, E, F, G, H, I, J, K, L, M,)"@,
            fields: seq![FieldModel { name: "0"@, type_info: A::type_model() }, FieldModel { name: "1"@, type_info: B::type_model() }, FieldModel { name: "2"@, type_info: C::type_model() }, FieldModel { name: "3"@, type_info: D::type_model() }, FieldModel { name: "4"@, type_info: E::type_model() }, FieldModel { name: "5"@, type_info: F::type_model() }, FieldModel { name: "6"@, type_info: G::type_model() }, FieldModel { name: "7"@, type_info: H::type_model() }, FieldModel { name: "8"@, type_info: I::type_model() }, FieldModel { name: "9"@, type_info: J::type_model() }, FieldModel { name: "10"@, type_info: K::type_model() }, FieldModel { name: "11"@, type_info: L::type_model() }, FieldModel { name: "12"@, type_info: M::type_model() }],
        }
    }

    fn type_info() -> (r: TypeInfo) {
        let mut fields: Vec<FieldInfo> = Vec::new();
        fields.push(FieldInfo { name: "0".to_string(), type_info: A::type_info() });
        fields.push(FieldInfo { name: "1".to_string(), type_info: B::type_info() });
        fields.push(FieldInfo { name: "2".to_string(), type_info: C::type_info() });
        fields.push(FieldInfo { name: "3".to_string(), type_info: D::type_info() });
        fields.push(FieldInfo { name: "4".to_string(), type_info: E::type_info() });
        fields.push(FieldInfo { name: "5".to_string(), type_info: F::type_info() });
        fields.push(FieldInfo { name: "6".to_string(), type_info: G::type_info() });
        fields.push(FieldInfo { name: "7".to_string(), type_info: H::type_info() });
        fields.push(FieldInfo { name: "8".to_string(), type_info: I::type_info() });
        fields.push(FieldInfo { name: "9".to_string(), type_info: J::type_info() });
        fields.push(FieldInfo { name: "10".to_string(), type_info: K::type_info() });
        fields.push(FieldInfo { name: "11".to_string(), type_info: L::type_info() });
        fields.push(FieldInfo { name: "12".to_string(), type_info: M::type_info() });
        proof {
            lemma_fields_model(fields@);
            assert(fields_model(fields@) =~= seq![FieldModel { name: "0"@, type_info: A::type_model() }, FieldModel { name: "1"@, type_info: B::type_model() }, FieldModel { name: "2"@, type_info: C::type_model() }, FieldModel { name: "3"@, type_info: D::type_model() }, FieldModel { name: "4"@, type_info: E::type_model() }, FieldModel { name: "5"@, type_info: F::type_model() }, FieldModel { name: "6"@, type_info: G::type_model() }, FieldModel { name: "7"@, type_info: H::type_model() }, FieldModel { name: "8"@, type_info: I::type_model() }, FieldModel { name: "9"@, type_info: J::type_model() }, FieldModel { name: "10"@, type_info: K::type_model() }, FieldModel { name: "11"@, type_info: L::type_model() }, FieldModel { name: "12"@, type_info: M::type_model() }]);
        }
        TypeInfo::Struct { name: "(A, B, C, D, E, F, G, H, I, J, K, L, M,)".to_string(), fields }
    }
}

impl<A: CompileType, B: CompileType, C: CompileType, D: CompileType, E: CompileType, F: CompileType, G: CompileType, H: CompileType, I: CompileType, J: CompileType, K: CompileType, L: CompileType, M: CompileType, N: CompileType> CompileType for (A, B, C, D, E, F, G, H, I, J, K, L, M, N,) {
    open spec fn type_model() -> TypeModel {
        TypeModel::Struct {
            name: "(A, B, C, D, E, F, G, H, I, J, K, L, M, N,)"@,
            fields: seq![FieldModel { name: "0"@, type_info: A::type_model() }, FieldModel { name: "1"@, type_info: B::type_model() }, FieldModel { name: "2"@, type_info: C::type_model() }, FieldModel { name: "3"@, type_info: D::type_model() }, FieldModel { name: "4"@, type_info: E::type_model() }, FieldModel { name: "5"@, type_info: F::type_model() }, FieldModel { name: "6"@, type_info: G::type_model() }, FieldModel { name: "7"@, type_info: H::type_model() }, FieldModel { name: "8"@, type_info: I::type_model() }, FieldModel { name: "9"@, type_info: J::type_model() }, FieldModel { name: "10"@, type_info: K::type_model() }, FieldModel { name: "11"@, type_info: L::type_model() }, FieldModel { name: "12"@, type_info: M::type_model() }, FieldModel { name: "13"@, type_info: N::type_model() }],
        }
    }

    fn type_info() -> (r: TypeInfo) {
        let mut fields: Vec<FieldInfo> = Vec::new();
        fields.push(FieldInfo { name: "0".to_string(), type_info: A::type_info() });
        fields.push(FieldInfo { name: "1".to_string(), type_info: B::type_info() });
        fields.push(FieldInfo { name: "2".to_string(), type_info: C::type_info() });
        fields.push(FieldInfo { name: "3".to_string(), type_info: D::type_info() });
        fields.push(FieldInfo { name: "4".to_string(), type_info: E::type_info() });
        fields.push(FieldInfo { name: "5".to_string(), type_info: F::type_info() });
        fields.push(FieldInfo { name: "6".to_string(), type_info: G::type_info() });
        fields.push(FieldInfo { name: "7".to_string(), type_info: H::type_info() });
        fields.push(FieldInfo { name: "8".to_string(), type_info: I::type_info() });
        fields.push(FieldInfo { name: "9".to_string(), type_info: J::type_info() });
        fields.push(FieldInfo { name: "10".to_string(), type_info: K::type_info() });
        fields.push(FieldInfo { name: "11".to_string(), type_info: L::type_info() });
        fields.push(FieldInfo { name: "12".to_string(), type_info: M::type_info() });
        fields.push(FieldInfo { name: "13".to_string(), type_info: N::type_info() });
        proof {
            lemma_fields_model(fields@);
            assert(fields_model(fields@) =~= seq![FieldModel { name: "0"@, type_info: A::type_model() }, FieldModel { name: "1"@, type_info: B::type_model() }, FieldModel { name: "2"@, type_info: C::type_model() }, FieldModel { name: "3"@, type_info: D::type_model() }, FieldModel { name: "4"@, type_info: E::type_model() }, FieldModel { name: "5"@, type_info: F::type_model() }, FieldModel { name: "6"@, type_info: G::type_model() }, FieldModel { name: "7"@, type_info: H::type_model() }, FieldModel { name: "8"@, type_info: I::type_model() }, FieldModel { name: "9"@, type_info: J::type_model() }, FieldModel { name: "10"@, type_info: K::type_model() }, FieldModel { name: "11"@, type_info: L::type_model() }, FieldModel { name: "12"@, type_info: M::type_model() }, FieldModel { name: "13"@, type_info: N::type_model() }]);
        }
        TypeInfo::Struct { name: "(A, B, C, D, E, F, G, H, I, J, K, L, M, N,)".to_string(), fields }
    }
}

impl<A: CompileType, B: CompileType, C: CompileType, D: CompileType, E: CompileType, F: CompileType, G: CompileType, H: CompileType, I: CompileType, J: CompileType, K: CompileType, L: CompileType, M: CompileType, N: CompileType, O: CompileType> CompileType for (A, B, C, D, E, F, G, H, I, J, K, L, M, N, O,) {
    open spec fn type_model() -> TypeModel {
        TypeModel::Struct {
            name: "(A, B, C, D, E, F, G, H, I, J, K, L, M, N, O,)"@,
            fields: seq![FieldModel { name: "0"@, type_info: A::type_model() }, FieldModel { name: "1"@, type_info: B::type_model() }, FieldModel { name: "2"@, type_info: C::type_model() }, FieldModel { name: "3"@, type_info: D::type_model() }, FieldModel { name: "4"@, type_info: E::type_model() }, FieldModel { name: "5"@, type_info: F::type_model() }, FieldModel { name: "6"@, type_info: G::type_model() }, FieldModel { name: "7"@, type_info: H::type_model() }, FieldModel { name: "8"@, type_info: I::type_model() }, FieldModel { name: "9"@, type_info: J::type_model() }, FieldModel { name: "10"@, type_info: K::type_model() }, FieldModel { name: "11"@, type_info: L::type_model() }, FieldModel { name: "12"@, type_info: M::type_model() }, FieldModel { name: "13"@, type_info: N::type_model() }, FieldModel { name: "14"@, type_info: O::type_model() }],
        }
    }

    fn type_info() -> (r: TypeInfo) {
        let mut fields: Vec<FieldInfo> = Vec::new();
        fields.push(FieldInfo { name: "0".to_string(), type_info: A::type_info() });
        fields.push(FieldInfo { name: "1".to_string(), type_info: B::type_info() });
        fields.push(FieldInfo { name: "2".to_string(), type_info: C::type_info() });
        fields.push(FieldInfo { name: "3".to_string(), type_info: D::type_info() });
        fields.push(FieldInfo { name: "4".to_string(), type_info: E::type_info() });
        fields.push(FieldInfo { name: "5".to_string(), type_info: F::type_info() });
        fields.push(FieldInfo { name: "6".to_string(), type_info: G::type_info() });
        fields.push(FieldInfo { name: "7".to_string(), type_info: H::type_info() });
        fields.push(FieldInfo { name: "8".to_string(), type_info: I::type_info() });
        fields.push(FieldInfo { name: "9".to_string(), type_info: J::type_info() });
        fields.push(FieldInfo { name: "10".to_string(), type_info: K::type_info() });
        fields.push(FieldInfo { name: "11".to_string(), type_info: L::type_info() });
        fields.push(FieldInfo { name: "12".to_string(), type_info: M::type_info() });
        fields.push(FieldInfo { name: "13".to_string(), type_info: N::type_info() });
        fields.push(FieldInfo { name: "14".to_string(), type_info: O::type_info() });
        proof {
            lemma_fields_model(fields@);
            assert(fields_model(fields@) =~= seq![FieldModel { name: "0"@, type_info: A::type_model() }, FieldModel { name: "1"@, type_info: B::type_model() }, FieldModel { name: "2"@, type_info: C::type_model() }, FieldModel { name: "3"@, type_info: D::type_model() }, FieldModel { name: "4"@, type_info: E::type_model() }, FieldModel { name: "5"@, type_info: F::type_model() }, FieldModel { name: "6"@, type_info: G::type_model() }, FieldModel { name: "7"@, type_info: H::type_model() }, FieldModel { name: "8"@, type_info: I::type_model() }, FieldModel { name: "9"@, type_info: J::type_model() }, FieldModel { name: "10"@, type_info: K::type_model() }, FieldModel { name: "11"@, type_info: L::type_model() }, FieldModel { name: "12"@, type_info: M::type_model() }, FieldModel { name: "13"@, type_info: N::type_model() }, FieldModel { name: "14"@, type_info: O::type_model() }]);
        }
        TypeInfo::Struct { name: "(A, B, C, D, E, F, G, H, I, J, K, L, M, N, O,)".to_string(), fields }
    }
}

impl<A: CompileType, B: CompileType, C: CompileType, D: CompileType, E: CompileType, F: CompileType, G: CompileType, H: CompileType, I: CompileType, J: CompileType, K: CompileType, L: CompileType, M: CompileType, N: CompileType, O: CompileType, P: CompileType> CompileType for (A, B, C, D, E, F, G, H, I, J, K, L, M, N, O, P,) {
    open spec fn type_model() -> TypeModel {
        TypeModel::Struct {
            name: "(A, B, C, D, E, F, G, H, I, J, K, L, M, N, O, P,)"@,
            fields: seq![FieldModel { name: "0"@, type_info: A::type_model() }, FieldModel { name: "1"@, type_info: B::type_model() }, FieldModel { name: "2"@, type_info: C::type_model() }, FieldModel { name: "3"@, type_info: D::type_model() }, FieldModel { name: "4"@, type_info: E::type_model() }, FieldModel { name: "5"@, type_info: F::type_model() }, FieldModel { name: "6"@, type_info: G::type_model() }, FieldModel { name: "7"@, type_info: H::type_model() }, FieldModel { name: "8"@, type_info: I::type_model() }, FieldModel { name: "9"@, type_info: J::type_model() }, FieldModel { name: "10"@, type_info: K::type_model() }, FieldModel { name: "11"@, type_info: L::type_model() }, FieldModel { name: "12"@, type_info: M::type_model() }, FieldModel { name: "13"@, type_info: N::type_model() }, FieldModel { name: "14"@, type_info: O::type_model() }, FieldModel { name: "15"@, type_info: P::type_model() }],
        }
    }

    fn type_info() -> (r: TypeInfo) {
        let mut fields: Vec<FieldInfo> = Vec::new();
        fields.push(FieldInfo { name: "0".to_string(), type_info: A::type_info() });
        fields.push(FieldInfo { name: "1".to_string(), type_info: B::type_info() });
        fields.push(FieldInfo { name: "2".to_string(), type_info: C::type_info() });
        fields.push(FieldInfo { name: "3".to_string(), type_info: D::type_info() });
        fields.push(FieldInfo { name: "4".to_string(), type_info: E::type_info() });
        fields.push(FieldInfo { name: "5".to_string(), type_info: F::type_info() });
        fields.push(FieldInfo { name: "6".to_string(), type_info: G::type_info() });
        fields.push(FieldInfo { name: "7".to_string(), type_info: H::type_info() });
        fields.push(FieldInfo { name: "8".to_string(), type_info: I::type_info() });
        fields.push(FieldInfo { name: "9".to_string(), type_info: J::type_info() });
        fields.push(FieldInfo { name: "10".to_string(), type_info: K::type_info() });
        fields.push(FieldInfo { name: "11".to_string(), type_info: L::type_info() });
        fields.push(FieldInfo { name: "12".to_string(), type_info: M::type_info() });
        fields.push(FieldInfo { name: "13".to_string(), type_info: N::type_info() });
        fields.push(FieldInfo { name: "14".to_string(), type_info: O::type_info() });
        fields.push(FieldInfo { name: "15".to_string(), type_info: P::type_info() });
        proof {
            lemma_fields_model(fields@);
            assert(fields_model(fields@) =~= seq![FieldModel { name: "0"@, type_info: A::type_model() }, FieldModel { name: "1"@, type_info: B::type_model() }, FieldModel { name: "2"@, type_info: C::type_model() }, FieldModel { name: "3"@, type_info: D::type_model() }, FieldModel { name: "4"@, type_info: E::type_model() }, FieldModel { name: "5"@, type_info: F::type_model() }, FieldModel { name: "6"@, type_info: G::type_model() }, FieldModel { name: "7"@, type_info: H::type_model() }, FieldModel { name: "8"@, type_info: I::type_model() }, FieldModel { name: "9"@, type_info: J::type_model() }, FieldModel { name: "10"@, type_info: K::type_model() }, FieldModel { name: "11"@, type_info: L::type_model() }, FieldModel { name: "12"@, type_info: M::type_model() }, FieldModel { name: "13"@, type_info: N::type_model() }, FieldModel { name: "14"@, type_info: O::type_model() }, FieldModel { name: "15"@, type_info: P::type_model() }]);
        }
        TypeInfo::Struct { name: "(A, B, C, D, E, F, G, H, I, J, K, L, M, N, O, P,)".to_string(), fields }
    }
}

/// The description of the type that `f` returns.
pub fn type_info_of<T: CompileType, F: FnOnce() -> T>(f: F) -> (r: TypeInfo)
    ensures
        r@ == T::type_model(),
{
    T::type_info()
}

/// The description of the type that the one-argument function `f` returns.
pub fn type_info_of1<A: CompileType, T: CompileType, F: FnOnce(A) -> T>(f: F) -> (r: TypeInfo)
    ensures
        r@ == T::type_model(),
{
    T::type_info()
}

} // verus!
