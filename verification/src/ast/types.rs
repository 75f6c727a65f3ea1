//! The type annotations of the language.
use vstd::prelude::*;

use std::collections::HashMap;

use crate::ast::{Expression, ExpressionView, Literal};
use crate::text::str_eq;

verus! {

/// The built-in types of fixed width.
#[derive(Debug, Clone, Copy, PartialEq, Eq, Structural)]
pub enum StrictBuiltInType {
    U8,
    U16,
    U32,
    U64,
    U128,
    I8,
    I16,
    I32,
    I64,
    I128,
    F32,
    F64,
}

/// The forms that a type annotation can take.
#[derive(Debug)]
pub enum TypeKind {
    /// A union: a value of any of its member types, as in `Animal | Mammal`.
    Union(Box<TypeUnion>),
    /// A type named by an alias or a declaration, as in `Dog`.
    Reference(TypeReference),
    /// A type that is decided when the program runs.
    RuntimeType(RuntimeType),
    /// A type of the language itself, as in `string`.
    BuiltIn(BuiltInType),
}

/// The mathematical value of a [`TypeKind`].
pub ghost enum TypeKindView {
    Union(Box<TypeUnionView>),
    Reference(TypeReferenceView),
    RuntimeType(RuntimeTypeView),
    BuiltIn(BuiltInTypeView),
}

impl TypeKind {
    /// The mathematical value of the item.
    pub open spec fn model(self) -> TypeKindView
        decreases self,
    {
        match self {
            TypeKind::Union(x) => TypeKindView::Union(Box::new((*x).model())),
            TypeKind::Reference(x) => TypeKindView::Reference(x.model()),
            TypeKind::RuntimeType(x) => TypeKindView::RuntimeType(x.model()),
            TypeKind::BuiltIn(x) => TypeKindView::BuiltIn(x.model()),
        }
    }
}

impl View for TypeKind {
    type V = TypeKindView;

    open spec fn view(&self) -> TypeKindView {
        self.model()
    }
}

impl Clone for TypeKind {
    fn clone(&self) -> (r: Self)
        ensures
            r@ == self@,
        decreases self,
    {
        match self {
            TypeKind::Union(x) => TypeKind::Union(Box::new((&**x).clone())),
            TypeKind::Reference(x) => TypeKind::Reference((x).clone()),
            TypeKind::RuntimeType(x) => TypeKind::RuntimeType((x).clone()),
            TypeKind::BuiltIn(x) => TypeKind::BuiltIn((x).clone()),
        }
    }
}

impl TypeKind {
    /// The values of the items of `s`, in order.
    pub open spec fn views(s: Seq<TypeKind>) -> Seq<TypeKindView>
        decreases s,
    {
        Seq::new(
            s.len(),
            |i: int|
                if 0 <= i < s.len() {
                    s[i].model()
                } else {
                    arbitrary()
                },
        )
    }

    /// The value of a sequence with one more item is the value of the
    /// sequence with the value of the item appended.
    pub proof fn lemma_views_push(s: Seq<TypeKind>, x: TypeKind)
        ensures
            Self::views(s.push(x)) == Self::views(s).push(x@),
            Self::views(Seq::empty()) == Seq::<TypeKindView>::empty(),
            Self::views(s).len() == s.len(),
    {
        assert(Self::views(s.push(x)) =~= Self::views(s).push(x@));
        assert(Self::views(Seq::empty()) =~= Seq::<TypeKindView>::empty());
    }

    /// A copy of every item of `v`, in order.
    pub fn clone_all(v: &Vec<TypeKind>) -> (r: Vec<TypeKind>)
        ensures
            Self::views(r@) == Self::views(v@),
        decreases v,
    {
        let mut out: Vec<TypeKind> = Vec::new();
        let mut i: usize = 0;
        while i < v.len()
            invariant
                i <= v.len(),
                out@.len() == i,
                forall|j: int| 0 <= j < i ==> out@[j]@ == v@[j]@,
            decreases v.len() - i,
        {
            proof {
                assert(decreases_to!(v => v@));
                assert(decreases_to!(v@ => v@[i as int]));
            }
            let item = v[i].clone();
            out.push(item);
            i += 1;
        }
        assert(Self::views(out@) =~= Self::views(v@));
        out
    }
}

/// One type parameter, such as the `T` of `caller<T>`.
#[derive(Debug)]
pub struct TypeParam {
    pub name: Option<String>,
    pub kind: TypeKind,
}

/// The mathematical value of a [`TypeParam`].
pub ghost struct TypeParamView {
    pub name: Option<Seq<char>>,
    pub kind: TypeKindView,
}

impl TypeParam {
    /// The mathematical value of the item.
    pub open spec fn model(self) -> TypeParamView
        decreases self,
    {
        TypeParamView {
            name: match self.name { Some(inner) => Some(inner@), None => None },
            kind: self.kind.model(),
        }
    }
}

impl View for TypeParam {
    type V = TypeParamView;

    open spec fn view(&self) -> TypeParamView {
        self.model()
    }
}

impl Clone for TypeParam {
    fn clone(&self) -> (r: Self)
        ensures
            r@ == self@,
        decreases self,
    {
        TypeParam {
            name: match &self.name { Some(inner) => Some((inner).clone()), None => None },
            kind: (&self.kind).clone(),
        }
    }
}

impl TypeParam {
    /// The values of the items of `s`, in order.
    pub open spec fn views(s: Seq<TypeParam>) -> Seq<TypeParamView>
        decreases s,
    {
        Seq::new(
            s.len(),
            |i: int|
                if 0 <= i < s.len() {
                    s[i].model()
                } else {
                    arbitrary()
                },
        )
    }

    /// The value of a sequence with one more item is the value of the
    /// sequence with the value of the item appended.
    pub proof fn lemma_views_push(s: Seq<TypeParam>, x: TypeParam)
        ensures
            Self::views(s.push(x)) == Self::views(s).push(x@),
            Self::views(Seq::empty()) == Seq::<TypeParamView>::empty(),
            Self::views(s).len() == s.len(),
    {
        assert(Self::views(s.push(x)) =~= Self::views(s).push(x@));
        assert(Self::views(Seq::empty()) =~= Seq::<TypeParamView>::empty());
    }

    /// A copy of every item of `v`, in order.
    pub fn clone_all(v: &Vec<TypeParam>) -> (r: Vec<TypeParam>)
        ensures
            Self::views(r@) == Self::views(v@),
        decreases v,
    {
        let mut out: Vec<TypeParam> = Vec::new();
        let mut i: usize = 0;
        while i < v.len()
            invariant
                i <= v.len(),
                out@.len() == i,
                forall|j: int| 0 <= j < i ==> out@[j]@ == v@[j]@,
            decreases v.len() - i,
        {
            proof {
                assert(decreases_to!(v => v@));
                assert(decreases_to!(v@ => v@[i as int]));
            }
            let item = v[i].clone();
            out.push(item);
            i += 1;
        }
        assert(Self::views(out@) =~= Self::views(v@));
        out
    }
}

/// The member types of a union, in the order written.
#[derive(Debug)]
pub struct TypeUnion {
    pub types: Vec<TypeKind>,
}

/// The mathematical value of a [`TypeUnion`].
pub ghost struct TypeUnionView {
    pub types: Seq<TypeKindView>,
}

impl TypeUnion {
    /// The mathematical value of the item.
    pub open spec fn model(self) -> TypeUnionView
        decreases self,
    {
        TypeUnionView {
            types: TypeKind::views(self.types@),
        }
    }
}

impl View for TypeUnion {
    type V = TypeUnionView;

    open spec fn view(&self) -> TypeUnionView {
        self.model()
    }
}

impl Clone for TypeUnion {
    fn clone(&self) -> (r: Self)
        ensures
            r@ == self@,
        decreases self,
    {
        TypeUnion {
            types: TypeKind::clone_all(&self.types),
        }
    }
}

/// A reference to a named type, with its type arguments if it has any.
#[derive(Debug)]
pub struct TypeReference {
    pub name: String,
    pub params: Option<Vec<TypeParam>>,
}

/// The mathematical value of a [`TypeReference`].
pub ghost struct TypeReferenceView {
    pub name: Seq<char>,
    pub params: Option<Seq<TypeParamView>>,
}

impl TypeReference {
    /// The mathematical value of the item.
    pub open spec fn model(self) -> TypeReferenceView
        decreases self,
    {
        TypeReferenceView {
            name: self.name@,
            params: match self.params { Some(inner) => Some(TypeParam::views(inner@)), None => None },
        }
    }
}

impl View for TypeReference {
    type V = TypeReferenceView;

    open spec fn view(&self) -> TypeReferenceView {
        self.model()
    }
}

impl Clone for TypeReference {
    fn clone(&self) -> (r: Self)
        ensures
            r@ == self@,
        decreases self,
    {
        TypeReference {
            name: (&self.name).clone(),
            params: match &self.params { Some(inner) => Some(TypeParam::clone_all(inner)), None => None },
        }
    }
}

/// A type given by an expression that is evaluated when the program runs.
#[derive(Debug)]
pub struct RuntimeType {
    pub params: Option<Vec<TypeParam>>,
    pub body: Box<Expression>,
}

/// The mathematical value of a [`RuntimeType`].
pub ghost struct RuntimeTypeView {
    pub params: Option<Seq<TypeParamView>>,
    pub body: Box<ExpressionView>,
}

impl RuntimeType {
    /// The mathematical value of the item.
    pub open spec fn model(self) -> RuntimeTypeView
        decreases self,
    {
        RuntimeTypeView {
            params: match self.params { Some(inner) => Some(TypeParam::views(inner@)), None => None },
            body: Box::new((*self.body).model()),
        }
    }
}

impl View for RuntimeType {
    type V = RuntimeTypeView;

    open spec fn view(&self) -> RuntimeTypeView {
        self.model()
    }
}

impl Clone for RuntimeType {
    fn clone(&self) -> (r: Self)
        ensures
            r@ == self@,
        decreases self,
    {
        RuntimeType {
            params: match &self.params { Some(inner) => Some(TypeParam::clone_all(inner)), None => None },
            body: Box::new((&**&self.body).clone()),
        }
    }
}

/// The types of the language itself.
#[derive(Debug)]
pub enum BuiltInType {
    /// A type of fixed width.
    Strict(StrictBuiltInType),
    /// One byte.
    Byte,
    /// A number of 16 bits.
    Short,
    /// A whole number.
    Int,
    /// A large whole number.
    Long,
    /// A number with a fraction.
    Float,
    /// A number with a fraction, of double width.
    Double,
    /// A truth value.
    Bool,
    /// A piece of text.
    String,
    /// An array of a type.
    Array(Box<TypeKind>),
    /// Any type at all.
    Any,
}

/// The mathematical value of a [`BuiltInType`].
pub ghost enum BuiltInTypeView {
    Strict(StrictBuiltInType),
    Byte,
    Short,
    Int,
    Long,
    Float,
    Double,
    Bool,
    String,
    Array(Box<TypeKindView>),
    Any,
}

impl BuiltInType {
    /// The mathematical value of the item.
    pub open spec fn model(self) -> BuiltInTypeView
        decreases self,
    {
        match self {
            BuiltInType::Strict(x) => BuiltInTypeView::Strict(x),
            BuiltInType::Byte => BuiltInTypeView::Byte,
            BuiltInType::Short => BuiltInTypeView::Short,
            BuiltInType::Int => BuiltInTypeView::Int,
            BuiltInType::Long => BuiltInTypeView::Long,
            BuiltInType::Float => BuiltInTypeView::Float,
            BuiltInType::Double => BuiltInTypeView::Double,
            BuiltInType::Bool => BuiltInTypeView::Bool,
            BuiltInType::String => BuiltInTypeView::String,
            BuiltInType::Array(x) => BuiltInTypeView::Array(Box::new((*x).model())),
            BuiltInType::Any => BuiltInTypeView::Any,
        }
    }
}

impl View for BuiltInType {
    type V = BuiltInTypeView;

    open spec fn view(&self) -> BuiltInTypeView {
        self.model()
    }
}

impl Clone for BuiltInType {
    fn clone(&self) -> (r: Self)
        ensures
            r@ == self@,
        decreases self,
    {
        match self {
            BuiltInType::Strict(x) => BuiltInType::Strict(*x),
            BuiltInType::Byte => BuiltInType::Byte,
            BuiltInType::Short => BuiltInType::Short,
            BuiltInType::Int => BuiltInType::Int,
            BuiltInType::Long => BuiltInType::Long,
            BuiltInType::Float => BuiltInType::Float,
            BuiltInType::Double => BuiltInType::Double,
            BuiltInType::Bool => BuiltInType::Bool,
            BuiltInType::String => BuiltInType::String,
            BuiltInType::Array(x) => BuiltInType::Array(Box::new((&**x).clone())),
            BuiltInType::Any => BuiltInType::Any,
        }
    }
}

/// A type alias: `type Foo<K, V> = Map<K, V>;`.
#[derive(Debug)]
pub struct TypeDefinition {
    /// The name of the alias.
    pub name: String,
    /// Its type parameters.
    pub params: Option<Vec<TypeParam>>,
    /// The type that it stands for.
    pub kind: TypeKind,
}

/// The mathematical value of a [`TypeDefinition`].
pub ghost struct TypeDefinitionView {
    pub name: Seq<char>,
    pub params: Option<Seq<TypeParamView>>,
    pub kind: TypeKindView,
}

impl TypeDefinition {
    /// The mathematical value of the item.
    pub open spec fn model(self) -> TypeDefinitionView
        decreases self,
    {
        TypeDefinitionView {
            name: self.name@,
            params: match self.params { Some(inner) => Some(TypeParam::views(inner@)), None => None },
            kind: self.kind.model(),
        }
    }
}

impl View for TypeDefinition {
    type V = TypeDefinitionView;

    open spec fn view(&self) -> TypeDefinitionView {
        self.model()
    }
}

impl Clone for TypeDefinition {
    fn clone(&self) -> (r: Self)
        ensures
            r@ == self@,
        decreases self,
    {
        TypeDefinition {
            name: (&self.name).clone(),
            params: match &self.params { Some(inner) => Some(TypeParam::clone_all(inner)), None => None },
            kind: (&self.kind).clone(),
        }
    }
}

impl TypeKind {
    /// The union of `types`.
    pub fn union(types: Vec<TypeKind>) -> (r: Self)
        ensures
            r == TypeKind::Union(Box::new(TypeUnion { types })),
    {
        TypeKind::Union(Box::new(TypeUnion::new(types)))
    }

    /// A reference to the type named `context`, with its type arguments.
    pub fn reference(context: String, params: Option<Vec<TypeParam>>) -> (r: Self)
        ensures
            r == TypeKind::Reference(TypeReference { name: context, params }),
    {
        TypeKind::Reference(TypeReference::new(context, params))
    }

    /// A runtime type without parameters, whose body is the literal `None`.
    pub fn runtime_type(name: String) -> (r: Self)
        ensures
            r@ == TypeKindView::RuntimeType(RuntimeType::empty_view()),
    {
        TypeKind::RuntimeType(RuntimeType::empty())
    }

    /// The built-in type named `name`.
    pub fn built_in(name: String) -> (r: Self)
        requires
            BuiltInType::parse(name@) is Some,
        ensures
            r@ == TypeKindView::BuiltIn(BuiltInType::parse(name@)->0),
    {
        match BuiltInType::from_string(name) {
            Some(b) => TypeKind::BuiltIn(b),
            None => TypeKind::BuiltIn(BuiltInType::Any),
        }
    }
}

impl TypeParam {
    /// An unnamed type parameter of the given kind.
    pub fn new(kind: TypeKind) -> (r: Self)
        ensures
            r == (TypeParam { name: None, kind }),
            r@ == (TypeParamView { name: None, kind: kind@ }),
    {
        TypeParam { name: None, kind }
    }
}

impl TypeUnion {
    pub fn empty() -> (r: Self)
        ensures
            r.types@ == Seq::<TypeKind>::empty(),
            r@ == (TypeUnionView { types: Seq::empty() }),
    {
        let r = TypeUnion { types: Vec::new() };
        proof {
            assert(TypeKind::views(r.types@) =~= Seq::empty());
        }
        r
    }

    pub fn new(types: Vec<TypeKind>) -> (r: Self)
        ensures
            r == (TypeUnion { types }),
            r@ == (TypeUnionView { types: TypeKind::views(types@) }),
    {
        TypeUnion { types }
    }
}

impl TypeReference {
    pub fn new(name: String, params: Option<Vec<TypeParam>>) -> (r: Self)
        ensures
            r == (TypeReference { name, params }),
            r@ == (TypeReferenceView {
                name: name@,
                params: match params {
                    Some(inner) => Some(TypeParam::views(inner@)),
                    None => None,
                },
            }),
    {
        TypeReference { name, params }
    }
}

impl RuntimeType {
    /// The value of the runtime type that [`RuntimeType::empty`] makes.
    pub open spec fn empty_view() -> RuntimeTypeView {
        RuntimeTypeView {
            params: None,
            body: Box::new(
                ExpressionView::Literal(crate::ast::LiteralView { value: "None"@, ty: None }),
            ),
        }
    }

    pub fn new(params: Option<Vec<TypeParam>>, body: Expression) -> (r: Self)
        ensures
            r == (RuntimeType { params, body: Box::new(body) }),
    {
        RuntimeType { params, body: Box::new(body) }
    }

    /// A runtime type without parameters, whose body is the literal `None`.
    pub fn empty() -> (r: Self)
        ensures
            r@ == Self::empty_view(),
    {
        RuntimeType {
            params: None,
            body: Box::new(Expression::Literal(Literal::new("None".to_string(), None))),
        }
    }
}

impl BuiltInType {
    /// The built-in type that `s` names, if it names one.
    pub open spec fn parse(s: Seq<char>) -> Option<BuiltInTypeView> {
        if s == "byte"@ {
            Some(BuiltInTypeView::Byte)
        } else if s == "short"@ {
            Some(BuiltInTypeView::Short)
        } else if s == "int"@ {
            Some(BuiltInTypeView::Int)
        } else if s == "long"@ {
            Some(BuiltInTypeView::Long)
        } else if s == "float"@ {
            Some(BuiltInTypeView::Float)
        } else if s == "double"@ {
            Some(BuiltInTypeView::Double)
        } else if s == "bool"@ {
            Some(BuiltInTypeView::Bool)
        } else if s == "string"@ {
            Some(BuiltInTypeView::String)
        } else if s == "array"@ {
            Some(BuiltInTypeView::Array(Box::new(TypeKindView::BuiltIn(BuiltInTypeView::Any))))
        } else if s == "any"@ {
            Some(BuiltInTypeView::Any)
        } else if s == "u8"@ {
            Some(BuiltInTypeView::Strict(StrictBuiltInType::U8))
        } else if s == "u16"@ {
            Some(BuiltInTypeView::Strict(StrictBuiltInType::U16))
        } else if s == "u32"@ {
            Some(BuiltInTypeView::Strict(StrictBuiltInType::U32))
        } else if s == "u64"@ {
            Some(BuiltInTypeView::Strict(StrictBuiltInType::U64))
        } else if s == "u128"@ {
            Some(BuiltInTypeView::Strict(StrictBuiltInType::U128))
        } else if s == "i8"@ {
            Some(BuiltInTypeView::Strict(StrictBuiltInType::I8))
        } else if s == "i16"@ {
            Some(BuiltInTypeView::Strict(StrictBuiltInType::I16))
        } else if s == "i32"@ {
            Some(BuiltInTypeView::Strict(StrictBuiltInType::I32))
        } else if s == "i64"@ {
            Some(BuiltInTypeView::Strict(StrictBuiltInType::I64))
        } else if s == "i128"@ {
            Some(BuiltInTypeView::Strict(StrictBuiltInType::I128))
        } else if s == "f32"@ {
            Some(BuiltInTypeView::Strict(StrictBuiltInType::F32))
        } else if s == "f64"@ {
            Some(BuiltInTypeView::Strict(StrictBuiltInType::F64))
        } else {
            None
        }
    }

    /// The built-in type that `s` names. An `array` is an array of `any`.
    pub fn from_string(s: String) -> (r: Option<Self>)
        ensures
            match r {
                Some(b) => Self::parse(s@) == Some(b@),
                None => Self::parse(s@) is None,
            },
    {
        let t = s.as_str();
        if str_eq(t, "byte") {
            Some(BuiltInType::Byte)
        } else if str_eq(t, "short") {
            Some(BuiltInType::Short)
        } else if str_eq(t, "int") {
            Some(BuiltInType::Int)
        } else if str_eq(t, "long") {
            Some(BuiltInType::Long)
        } else if str_eq(t, "float") {
            Some(BuiltInType::Float)
        } else if str_eq(t, "double") {
            Some(BuiltInType::Double)
        } else if str_eq(t, "bool") {
            Some(BuiltInType::Bool)
        } else if str_eq(t, "string") {
            Some(BuiltInType::String)
        } else if str_eq(t, "array") {
            proof {
                reveal_with_fuel(BuiltInType::model, 2);
            }
            Some(BuiltInType::Array(Box::new(TypeKind::BuiltIn(BuiltInType::Any))))
        } else if str_eq(t, "any") {
            Some(BuiltInType::Any)
        } else if str_eq(t, "u8") {
            Some(BuiltInType::Strict(StrictBuiltInType::U8))
        } else if str_eq(t, "u16") {
            Some(BuiltInType::Strict(StrictBuiltInType::U16))
        } else if str_eq(t, "u32") {
            Some(BuiltInType::Strict(StrictBuiltInType::U32))
        } else if str_eq(t, "u64") {
            Some(BuiltInType::Strict(StrictBuiltInType::U64))
        } else if str_eq(t, "u128") {
            Some(BuiltInType::Strict(StrictBuiltInType::U128))
        } else if str_eq(t, "i8") {
            Some(BuiltInType::Strict(StrictBuiltInType::I8))
        } else if str_eq(t, "i16") {
            Some(BuiltInType::Strict(StrictBuiltInType::I16))
        } else if str_eq(t, "i32") {
            Some(BuiltInType::Strict(StrictBuiltInType::I32))
        } else if str_eq(t, "i64") {
            Some(BuiltInType::Strict(StrictBuiltInType::I64))
        } else if str_eq(t, "i128") {
            Some(BuiltInType::Strict(StrictBuiltInType::I128))
        } else if str_eq(t, "f32") {
            Some(BuiltInType::Strict(StrictBuiltInType::F32))
        } else if str_eq(t, "f64") {
            Some(BuiltInType::Strict(StrictBuiltInType::F64))
        } else {
            None
        }
    }
}

impl TypeDefinition {
    pub fn new(name: String, params: Option<Vec<TypeParam>>, kind: TypeKind) -> (r: Self)
        ensures
            r == (TypeDefinition { name, params, kind }),
    {
        TypeDefinition { name, params, kind }
    }
}

/// Where a type is declared: a context and a node in it.
pub struct TypeRef {
    pub context: u64,
    pub node: u64,
}

impl TypeRef {
    pub fn new(context: u64, node: u64) -> (r: Self)
        ensures
            r.context == context,
            r.node == node,
    {
        TypeRef { context, node }
    }
}

/// The type aliases of one context, each under the id that it was given.
pub struct TypeStore {
    pub types: HashMap<u64, TypeDefinition>,
    next_id: u64,
}

impl TypeStore {
    /// The id that the next type will get.
    pub closed spec fn next(&self) -> u64 {
        self.next_id
    }

    /// The stored type aliases by their ids.
    pub closed spec fn entries(&self) -> Map<u64, TypeDefinition> {
        self.types@
    }

    /// An empty store, whose first id is zero.
    pub fn new() -> (r: Self)
        ensures
            r.entries() == Map::<u64, TypeDefinition>::empty(),
            r.next() == 0,
    {
        Self { types: HashMap::new(), next_id: 0 }
    }

    /// Whether a further type can be given an id.
    pub fn has_room(&self) -> (b: bool)
        ensures
            b == (self.next() < u64::MAX),
    {
        self.next_id < u64::MAX
    }

    /// Stores a type alias under the next free id and returns that id.
    pub fn add_type(&mut self, name: String, params: Option<Vec<TypeParam>>, kind: TypeKind) -> (id:
        u64)
        requires
            old(self).next() < u64::MAX,
        ensures
            id == old(self).next(),
            final(self).next() == id + 1,
            final(self).entries() == old(self).entries().insert(
                id,
                TypeDefinition { name, params, kind },
            ),
    {
        broadcast use vstd::std_specs::hash::group_hash_axioms;

        let id = self.next_id;
        self.next_id += 1;
        self.types.insert(id, TypeDefinition { name, params, kind });
        id
    }

    /// The type alias stored under `id`, if there is one.
    pub fn get_type(&self, id: u64) -> (r: Option<&TypeDefinition>)
        ensures
            match r {
                Some(t) => self.entries().contains_key(id) && *t == self.entries()[id],
                None => !self.entries().contains_key(id),
            },
    {
        broadcast use vstd::std_specs::hash::group_hash_axioms;

        self.types.get(&id)
    }
}

} // verus!
