//! The syntax tree: expressions, statements, declarations, and the nodes of a
//! parsed program.
use vstd::prelude::*;

use std::ops::Range;

pub mod ops;
pub mod types;

use self::ops::AnyOperation;
use self::types::{TypeDefinition, TypeDefinitionView, TypeKind, TypeKindView};
use crate::lexer::keyword::KeyWord;
use crate::lexer::token::{Token, TokenView};

verus! {

/// How a member is looked up.
#[derive(Debug, Clone, Copy, PartialEq, Eq, Structural)]
pub enum MemberLookup {
    /// On the type: `SomeType::member`.
    Static,
    /// On the value: `x.member`.
    Dynamic,
    /// By index: `x[y]`.
    Index,
}

/// Who can see a declaration.
#[derive(Debug, Clone, Copy, PartialEq, Eq, Structural)]
pub enum Visibility {
    /// Every module.
    Public,
    /// The scope that declares it.
    Private,
    /// The scope that declares it and its children.
    Protected,
    /// The module that declares it.
    Module,
}

/// Anything that can be evaluated to a value, such as `x + 1` or `some_function()`.
#[derive(Debug)]
pub enum Expression {
    /// An awaited expression.
    Await(Box<Expression>),
    /// A function call: `some_function()`.
    Call(Call),
    /// A method call: `x.method()`.
    MethodCall(MethodCall),
    /// An instantiation: `new SomeType()`.
    New(NewCall),
    /// An array literal: `[1, 2, 3]`.
    Array(Array),
    /// An object literal: `{ key: "value" }`.
    Object(Object),
    /// An operation: `1 + 2`.
    Operation(Operation),
    /// A statement in the place of an expression.
    Statement(Box<Statement>),
    /// A member access: `x.y`.
    Member(MemberListNode),
    /// A literal value or a name: `1`, `"hello"`, `true`, `x`.
    Literal(Literal),
    /// The end of a statement: `;`.
    EndOfLine,
}

/// The mathematical value of an [`Expression`].
pub ghost enum ExpressionView {
    Await(Box<ExpressionView>),
    Call(CallView),
    MethodCall(MethodCallView),
    New(NewCallView),
    Array(ArrayView),
    Object(ObjectView),
    Operation(OperationView),
    Statement(Box<StatementView>),
    Member(MemberListNodeView),
    Literal(LiteralView),
    EndOfLine,
}

impl Expression {
    /// The mathematical value of the item.
    pub open spec fn model(self) -> ExpressionView
        decreases self,
    {
        match self {
            Expression::Await(x) => ExpressionView::Await(Box::new((*x).model())),
            Expression::Call(x) => ExpressionView::Call(x.model()),
            Expression::MethodCall(x) => ExpressionView::MethodCall(x.model()),
            Expression::New(x) => ExpressionView::New(x.model()),
            Expression::Array(x) => ExpressionView::Array(x.model()),
            Expression::Object(x) => ExpressionView::Object(x.model()),
            Expression::Operation(x) => ExpressionView::Operation(x.model()),
            Expression::Statement(x) => ExpressionView::Statement(Box::new((*x).model())),
            Expression::Member(x) => ExpressionView::Member(x.model()),
            Expression::Literal(x) => ExpressionView::Literal(x.model()),
            Expression::EndOfLine => ExpressionView::EndOfLine,
        }
    }
}

impl View for Expression {
    type V = ExpressionView;

    open spec fn view(&self) -> ExpressionView {
        self.model()
    }
}

impl Clone for Expression {
    fn clone(&self) -> (r: Self)
        ensures
            r@ == self@,
        decreases self,
    {
        match self {
            Expression::Await(x) => Expression::Await(Box::new((&**x).clone())),
            Expression::Call(x) => Expression::Call((x).clone()),
            Expression::MethodCall(x) => Expression::MethodCall((x).clone()),
            Expression::New(x) => Expression::New((x).clone()),
            Expression::Array(x) => Expression::Array((x).clone()),
            Expression::Object(x) => Expression::Object((x).clone()),
            Expression::Operation(x) => Expression::Operation((x).clone()),
            Expression::Statement(x) => Expression::Statement(Box::new((&**x).clone())),
            Expression::Member(x) => Expression::Member((x).clone()),
            Expression::Literal(x) => Expression::Literal((x).clone()),
            Expression::EndOfLine => Expression::EndOfLine,
        }
    }
}

impl Expression {
    /// The values of the items of `s`, in order.
    pub open spec fn views(s: Seq<Expression>) -> Seq<ExpressionView>
        decreases s,
    {
        Seq::new(
            s.len(),
            |i: int|
                if 0 <= i < s.len() {
                    s[i].model()
                } else {
                    arbitrary()
                },
        )
    }

    /// The value of a sequence with one more item is the value of the
    /// sequence with the value of the item appended.
    pub proof fn lemma_views_push(s: Seq<Expression>, x: Expression)
        ensures
            Self::views(s.push(x)) == Self::views(s).push(x@),
            Self::views(Seq::empty()) == Seq::<ExpressionView>::empty(),
            Self::views(s).len() == s.len(),
    {
        assert(Self::views(s.push(x)) =~= Self::views(s).push(x@));
        assert(Self::views(Seq::empty()) =~= Seq::<ExpressionView>::empty());
    }

    /// A copy of every item of `v`, in order.
    pub fn clone_all(v: &Vec<Expression>) -> (r: Vec<Expression>)
        ensures
            Self::views(r@) == Self::views(v@),
        decreases v,
    {
        let mut out: Vec<Expression> = Vec::new();
        let mut i: usize = 0;
        while i < v.len()
            invariant
                i <= v.len(),
                out@.len() == i,
                forall|j: int| 0 <= j < i ==> out@[j]@ == v@[j]@,
            decreases v.len() - i,
        {
            proof {
                assert(decreases_to!(v => v@));
                assert(decreases_to!(v@ => v@[i as int]));
            }
            let item = v[i].clone();
            out.push(item);
            i += 1;
        }
        assert(Self::views(out@) =~= Self::views(v@));
        out
    }
}

/// A literal value, kept as written.
#[derive(Debug)]
pub struct Literal {
    pub value: String,
    /// The type that the compiler assumes for the literal.
    pub ty: Option<TypeKind>,
}

/// The mathematical value of a [`Literal`].
pub ghost struct LiteralView {
    pub value: Seq<char>,
    pub ty: Option<TypeKindView>,
}

impl Literal {
    /// The mathematical value of the item.
    pub open spec fn model(self) -> LiteralView
        decreases self,
    {
        LiteralView {
            value: self.value@,
            ty: match self.ty { Some(inner) => Some(inner.model()), None => None },
        }
    }
}

impl View for Literal {
    type V = LiteralView;

    open spec fn view(&self) -> LiteralView {
        self.model()
    }
}

impl Clone for Literal {
    fn clone(&self) -> (r: Self)
        ensures
            r@ == self@,
        decreases self,
    {
        Literal {
            value: (&self.value).clone(),
            ty: match &self.ty { Some(inner) => Some((inner).clone()), None => None },
        }
    }
}

/// A member access such as `x.y`.
#[derive(Debug)]
pub struct MemberListNode {
    /// What is accessed: the `y` of `x.y`.
    pub name: Box<Expression>,
    /// Where it is accessed from: the `x` of `x.y`.
    pub origin: Token,
    /// How it is accessed.
    pub lookup: MemberLookup,
}

/// The mathematical value of a [`MemberListNode`].
pub ghost struct MemberListNodeView {
    pub name: Box<ExpressionView>,
    pub origin: TokenView,
    pub lookup: MemberLookup,
}

impl MemberListNode {
    /// The mathematical value of the item.
    pub open spec fn model(self) -> MemberListNodeView
        decreases self,
    {
        MemberListNodeView {
            name: Box::new((*self.name).model()),
            origin: self.origin@,
            lookup: self.lookup,
        }
    }
}

impl View for MemberListNode {
    type V = MemberListNodeView;

    open spec fn view(&self) -> MemberListNodeView {
        self.model()
    }
}

impl Clone for MemberListNode {
    fn clone(&self) -> (r: Self)
        ensures
            r@ == self@,
        decreases self,
    {
        MemberListNode {
            name: Box::new((&**&self.name).clone()),
            origin: (&self.origin).clone(),
            lookup: *&self.lookup,
        }
    }
}

/// An array literal. Its values are validated after parsing.
#[derive(Debug)]
pub struct Array {
    pub values: Vec<Expression>,
    pub ty: Option<TypeKind>,
}

/// The mathematical value of an [`Array`].
pub ghost struct ArrayView {
    pub values: Seq<ExpressionView>,
    pub ty: Option<TypeKindView>,
}

impl Array {
    /// The mathematical value of the item.
    pub open spec fn model(self) -> ArrayView
        decreases self,
    {
        ArrayView {
            values: Expression::views(self.values@),
            ty: match self.ty { Some(inner) => Some(inner.model()), None => None },
        }
    }
}

impl View for Array {
    type V = ArrayView;

    open spec fn view(&self) -> ArrayView {
        self.model()
    }
}

impl Clone for Array {
    fn clone(&self) -> (r: Self)
        ensures
            r@ == self@,
        decreases self,
    {
        Array {
            values: Expression::clone_all(&self.values),
            ty: match &self.ty { Some(inner) => Some((inner).clone()), None => None },
        }
    }
}

/// An object literal.
#[derive(Debug)]
pub struct Object {
    pub properties: Vec<ObjectProperty>,
    /// The type of the object; none if it is anonymous.
    pub ty: Option<TypeKind>,
}

/// The mathematical value of an [`Object`].
pub ghost struct ObjectView {
    pub properties: Seq<ObjectPropertyView>,
    pub ty: Option<TypeKindView>,
}

impl Object {
    /// The mathematical value of the item.
    pub open spec fn model(self) -> ObjectView
        decreases self,
    {
        ObjectView {
            properties: ObjectProperty::views(self.properties@),
            ty: match self.ty { Some(inner) => Some(inner.model()), None => None },
        }
    }
}

impl View for Object {
    type V = ObjectView;

    open spec fn view(&self) -> ObjectView {
        self.model()
    }
}

impl Clone for Object {
    fn clone(&self) -> (r: Self)
        ensures
            r@ == self@,
        decreases self,
    {
        Object {
            properties: ObjectProperty::clone_all(&self.properties),
            ty: match &self.ty { Some(inner) => Some((inner).clone()), None => None },
        }
    }
}

/// One property of an object literal.
#[derive(Debug)]
pub struct ObjectProperty {
    pub name: String,
    pub value: Expression,
}

/// The mathematical value of an [`ObjectProperty`].
pub ghost struct ObjectPropertyView {
    pub name: Seq<char>,
    pub value: ExpressionView,
}

impl ObjectProperty {
    /// The mathematical value of the item.
    pub open spec fn model(self) -> ObjectPropertyView
        decreases self,
    {
        ObjectPropertyView {
            name: self.name@,
            value: self.value.model(),
        }
    }
}

impl View for ObjectProperty {
    type V = ObjectPropertyView;

    open spec fn view(&self) -> ObjectPropertyView {
        self.model()
    }
}

impl Clone for ObjectProperty {
    fn clone(&self) -> (r: Self)
        ensures
            r@ == self@,
        decreases self,
    {
        ObjectProperty {
            name: (&self.name).clone(),
            value: (&self.value).clone(),
        }
    }
}

impl ObjectProperty {
    /// The values of the items of `s`, in order.
    pub open spec fn views(s: Seq<ObjectProperty>) -> Seq<ObjectPropertyView>
        decreases s,
    {
        Seq::new(
            s.len(),
            |i: int|
                if 0 <= i < s.len() {
                    s[i].model()
                } else {
                    arbitrary()
                },
        )
    }

    /// The value of a sequence with one more item is the value of the
    /// sequence with the value of the item appended.
    pub proof fn lemma_views_push(s: Seq<ObjectProperty>, x: ObjectProperty)
        ensures
            Self::views(s.push(x)) == Self::views(s).push(x@),
            Self::views(Seq::empty()) == Seq::<ObjectPropertyView>::empty(),
            Self::views(s).len() == s.len(),
    {
        assert(Self::views(s.push(x)) =~= Self::views(s).push(x@));
        assert(Self::views(Seq::empty()) =~= Seq::<ObjectPropertyView>::empty());
    }

    /// A copy of every item of `v`, in order.
    pub fn clone_all(v: &Vec<ObjectProperty>) -> (r: Vec<ObjectProperty>)
        ensures
            Self::views(r@) == Self::views(v@),
        decreases v,
    {
        let mut out: Vec<ObjectProperty> = Vec::new();
        let mut i: usize = 0;
        while i < v.len()
            invariant
                i <= v.len(),
                out@.len() == i,
                forall|j: int| 0 <= j < i ==> out@[j]@ == v@[j]@,
            decreases v.len() - i,
        {
            proof {
                assert(decreases_to!(v => v@));
                assert(decreases_to!(v@ => v@[i as int]));
            }
            let item = v[i].clone();
            out.push(item);
            i += 1;
        }
        assert(Self::views(out@) =~= Self::views(v@));
        out
    }
}

/// Two operands joined by an operator.
#[derive(Debug)]
pub struct Operation {
    pub left: Box<Expression>,
    pub right: Box<Expression>,
    pub op: AnyOperation,
}

/// The mathematical value of an [`Operation`].
pub ghost struct OperationView {
    pub left: Box<ExpressionView>,
    pub right: Box<ExpressionView>,
    pub op: AnyOperation,
}

impl Operation {
    /// The mathematical value of the item.
    pub open spec fn model(self) -> OperationView
        decreases self,
    {
        OperationView {
            left: Box::new((*self.left).model()),
            right: Box::new((*self.right).model()),
            op: self.op,
        }
    }
}

impl View for Operation {
    type V = OperationView;

    open spec fn view(&self) -> OperationView {
        self.model()
    }
}

impl Clone for Operation {
    fn clone(&self) -> (r: Self)
        ensures
            r@ == self@,
        decreases self,
    {
        Operation {
            left: Box::new((&**&self.left).clone()),
            right: Box::new((&**&self.right).clone()),
            op: *&self.op,
        }
    }
}

/// Anything that can be executed or declared.
#[derive(Debug)]
pub enum Statement {
    /// A `var` declaration.
    Var(Variable),
    /// A `const` declaration.
    Const(Variable),
    /// A `static` declaration.
    Static(Static),
    /// A function declaration.
    Function(Function),
    /// A class declaration.
    Class(Class),
    /// A block of expressions between braces.
    Block(Vec<Expression>),
    /// An import: `use foo;`.
    Import(Path),
    /// A namespace: `namespace Foo;` or `namespace Foo { .. };`.
    Namespace(Namespace),
    /// A type alias: `type Foo = int;`.
    TypeDef(TypeDefinition),
    /// A return statement.
    Return(Return),
    /// A macro invocation.
    MacroInvocation(CompilerMacro),
}

/// The mathematical value of a [`Statement`].
pub ghost enum StatementView {
    Var(VariableView),
    Const(VariableView),
    Static(StaticView),
    Function(FunctionView),
    Class(ClassView),
    Block(Seq<ExpressionView>),
    Import(PathView),
    Namespace(NamespaceView),
    TypeDef(TypeDefinitionView),
    Return(ReturnView),
    MacroInvocation(CompilerMacroView),
}

impl Statement {
    /// The mathematical value of the item.
    pub open spec fn model(self) -> StatementView
        decreases self,
    {
        match self {
            Statement::Var(x) => StatementView::Var(x.model()),
            Statement::Const(x) => StatementView::Const(x.model()),
            Statement::Static(x) => StatementView::Static(x.model()),
            Statement::Function(x) => StatementView::Function(x.model()),
            Statement::Class(x) => StatementView::Class(x.model()),
            Statement::Block(x) => StatementView::Block(Expression::views(x@)),
            Statement::Import(x) => StatementView::Import(x.model()),
            Statement::Namespace(x) => StatementView::Namespace(x.model()),
            Statement::TypeDef(x) => StatementView::TypeDef(x.model()),
            Statement::Return(x) => StatementView::Return(x.model()),
            Statement::MacroInvocation(x) => StatementView::MacroInvocation(x.model()),
        }
    }
}

impl View for Statement {
    type V = StatementView;

    open spec fn view(&self) -> StatementView {
        self.model()
    }
}

impl Clone for Statement {
    fn clone(&self) -> (r: Self)
        ensures
            r@ == self@,
        decreases self,
    {
        match self {
            Statement::Var(x) => Statement::Var((x).clone()),
            Statement::Const(x) => Statement::Const((x).clone()),
            Statement::Static(x) => Statement::Static((x).clone()),
            Statement::Function(x) => Statement::Function((x).clone()),
            Statement::Class(x) => Statement::Class((x).clone()),
            Statement::Block(x) => Statement::Block(Expression::clone_all(x)),
            Statement::Import(x) => Statement::Import((x).clone()),
            Statement::Namespace(x) => Statement::Namespace((x).clone()),
            Statement::TypeDef(x) => Statement::TypeDef((x).clone()),
            Statement::Return(x) => Statement::Return((x).clone()),
            Statement::MacroInvocation(x) => Statement::MacroInvocation((x).clone()),
        }
    }
}

/// A statement marked `static`.
#[derive(Debug)]
pub struct Static {
    pub visibility: Visibility,
    pub statement: Box<Statement>,
}

/// The mathematical value of a [`Static`].
pub ghost struct StaticView {
    pub visibility: Visibility,
    pub statement: Box<StatementView>,
}

impl Static {
    /// The mathematical value of the item.
    pub open spec fn model(self) -> StaticView
        decreases self,
    {
        StaticView {
            visibility: self.visibility,
            statement: Box::new((*self.statement).model()),
        }
    }
}

impl View for Static {
    type V = StaticView;

    open spec fn view(&self) -> StaticView {
        self.model()
    }
}

impl Clone for Static {
    fn clone(&self) -> (r: Self)
        ensures
            r@ == self@,
        decreases self,
    {
        Static {
            visibility: *&self.visibility,
            statement: Box::new((&**&self.statement).clone()),
        }
    }
}

/// A class declaration.
#[derive(Debug)]
pub struct Class {
    pub name: String,
    pub extends: Option<String>,
    pub implements: Option<Vec<String>>,
    pub body: ClassBody,
    pub node_id: u64,
}

/// The mathematical value of a [`Class`].
pub ghost struct ClassView {
    pub name: Seq<char>,
    pub extends: Option<Seq<char>>,
    pub implements: Option<Seq<Seq<char>>>,
    pub body: ClassBodyView,
    pub node_id: u64,
}

impl Class {
    /// The mathematical value of the item.
    pub open spec fn model(self) -> ClassView
        decreases self,
    {
        ClassView {
            name: self.name@,
            extends: match self.extends { Some(inner) => Some(inner@), None => None },
            implements: match self.implements { Some(inner) => Some(crate::text::strings_view(inner@)), None => None },
            body: self.body.model(),
            node_id: self.node_id,
        }
    }
}

impl View for Class {
    type V = ClassView;

    open spec fn view(&self) -> ClassView {
        self.model()
    }
}

impl Clone for Class {
    fn clone(&self) -> (r: Self)
        ensures
            r@ == self@,
        decreases self,
    {
        Class {
            name: (&self.name).clone(),
            extends: match &self.extends { Some(inner) => Some((inner).clone()), None => None },
            implements: match &self.implements { Some(inner) => Some(crate::text::clone_strings(inner)), None => None },
            body: (&self.body).clone(),
            node_id: *&self.node_id,
        }
    }
}

/// A property of a class.
#[derive(Debug)]
pub struct ClassProperty {
    pub name: String,
    pub visibility: Visibility,
    pub ty: Option<TypeKind>,
    pub assignment: Option<Expression>,
}

/// The mathematical value of a [`ClassProperty`].
pub ghost struct ClassPropertyView {
    pub name: Seq<char>,
    pub visibility: Visibility,
    pub ty: Option<TypeKindView>,
    pub assignment: Option<ExpressionView>,
}

impl ClassProperty {
    /// The mathematical value of the item.
    pub open spec fn model(self) -> ClassPropertyView
        decreases self,
    {
        ClassPropertyView {
            name: self.name@,
            visibility: self.visibility,
            ty: match self.ty { Some(inner) => Some(inner.model()), None => None },
            assignment: match self.assignment { Some(inner) => Some(inner.model()), None => None },
        }
    }
}

impl View for ClassProperty {
    type V = ClassPropertyView;

    open spec fn view(&self) -> ClassPropertyView {
        self.model()
    }
}

impl Clone for ClassProperty {
    fn clone(&self) -> (r: Self)
        ensures
            r@ == self@,
        decreases self,
    {
        ClassProperty {
            name: (&self.name).clone(),
            visibility: *&self.visibility,
            ty: match &self.ty { Some(inner) => Some((inner).clone()), None => None },
            assignment: match &self.assignment { Some(inner) => Some((inner).clone()), None => None },
        }
    }
}

impl ClassProperty {
    /// The values of the items of `s`, in order.
    pub open spec fn views(s: Seq<ClassProperty>) -> Seq<ClassPropertyView>
        decreases s,
    {
        Seq::new(
            s.len(),
            |i: int|
                if 0 <= i < s.len() {
                    s[i].model()
                } else {
                    arbitrary()
                },
        )
    }

    /// The value of a sequence with one more item is the value of the
    /// sequence with the value of the item appended.
    pub proof fn lemma_views_push(s: Seq<ClassProperty>, x: ClassProperty)
        ensures
            Self::views(s.push(x)) == Self::views(s).push(x@),
            Self::views(Seq::empty()) == Seq::<ClassPropertyView>::empty(),
            Self::views(s).len() == s.len(),
    {
        assert(Self::views(s.push(x)) =~= Self::views(s).push(x@));
        assert(Self::views(Seq::empty()) =~= Seq::<ClassPropertyView>::empty());
    }

    /// A copy of every item of `v`, in order.
    pub fn clone_all(v: &Vec<ClassProperty>) -> (r: Vec<ClassProperty>)
        ensures
            Self::views(r@) == Self::views(v@),
        decreases v,
    {
        let mut out: Vec<ClassProperty> = Vec::new();
        let mut i: usize = 0;
        while i < v.len()
            invariant
                i <= v.len(),
                out@.len() == i,
                forall|j: int| 0 <= j < i ==> out@[j]@ == v@[j]@,
            decreases v.len() - i,
        {
            proof {
                assert(decreases_to!(v => v@));
                assert(decreases_to!(v@ => v@[i as int]));
            }
            let item = v[i].clone();
            out.push(item);
            i += 1;
        }
        assert(Self::views(out@) =~= Self::views(v@));
        out
    }
}

/// The members of a class, sorted by the parser into properties, methods and the rest.
#[derive(Debug)]
pub struct ClassBody {
    pub properties: Vec<ClassProperty>,
    pub methods: Vec<Function>,
    pub other: Vec<ClassAllowedStatement>,
}

/// The mathematical value of a [`ClassBody`].
pub ghost struct ClassBodyView {
    pub properties: Seq<ClassPropertyView>,
    pub methods: Seq<FunctionView>,
    pub other: Seq<ClassAllowedStatementView>,
}

impl ClassBody {
    /// The mathematical value of the item.
    pub open spec fn model(self) -> ClassBodyView
        decreases self,
    {
        ClassBodyView {
            properties: ClassProperty::views(self.properties@),
            methods: Function::views(self.methods@),
            other: ClassAllowedStatement::views(self.other@),
        }
    }
}

impl View for ClassBody {
    type V = ClassBodyView;

    open spec fn view(&self) -> ClassBodyView {
        self.model()
    }
}

impl Clone for ClassBody {
    fn clone(&self) -> (r: Self)
        ensures
            r@ == self@,
        decreases self,
    {
        ClassBody {
            properties: ClassProperty::clone_all(&self.properties),
            methods: Function::clone_all(&self.methods),
            other: ClassAllowedStatement::clone_all(&self.other),
        }
    }
}

/// The statements that may stand in a class body.
#[derive(Debug)]
pub enum ClassAllowedStatement {
    Property(ClassProperty),
    Method(Function),
    Macro(CompilerMacro),
    Import(Path),
    Static(Box<ClassAllowedStatement>),
}

/// The mathematical value of a [`ClassAllowedStatement`].
pub ghost enum ClassAllowedStatementView {
    Property(ClassPropertyView),
    Method(FunctionView),
    Macro(CompilerMacroView),
    Import(PathView),
    Static(Box<ClassAllowedStatementView>),
}

impl ClassAllowedStatement {
    /// The mathematical value of the item.
    pub open spec fn model(self) -> ClassAllowedStatementView
        decreases self,
    {
        match self {
            ClassAllowedStatement::Property(x) => ClassAllowedStatementView::Property(x.model()),
            ClassAllowedStatement::Method(x) => ClassAllowedStatementView::Method(x.model()),
            ClassAllowedStatement::Macro(x) => ClassAllowedStatementView::Macro(x.model()),
            ClassAllowedStatement::Import(x) => ClassAllowedStatementView::Import(x.model()),
            ClassAllowedStatement::Static(x) => ClassAllowedStatementView::Static(Box::new((*x).model())),
        }
    }
}

impl View for ClassAllowedStatement {
    type V = ClassAllowedStatementView;

    open spec fn view(&self) -> ClassAllowedStatementView {
        self.model()
    }
}

impl Clone for ClassAllowedStatement {
    fn clone(&self) -> (r: Self)
        ensures
            r@ == self@,
        decreases self,
    {
        match self {
            ClassAllowedStatement::Property(x) => ClassAllowedStatement::Property((x).clone()),
            ClassAllowedStatement::Method(x) => ClassAllowedStatement::Method((x).clone()),
            ClassAllowedStatement::Macro(x) => ClassAllowedStatement::Macro((x).clone()),
            ClassAllowedStatement::Import(x) => ClassAllowedStatement::Import((x).clone()),
            ClassAllowedStatement::Static(x) => ClassAllowedStatement::Static(Box::new((&**x).clone())),
        }
    }
}

impl ClassAllowedStatement {
    /// The values of the items of `s`, in order.
    pub open spec fn views(s: Seq<ClassAllowedStatement>) -> Seq<ClassAllowedStatementView>
        decreases s,
    {
        Seq::new(
            s.len(),
            |i: int|
                if 0 <= i < s.len() {
                    s[i].model()
                } else {
                    arbitrary()
                },
        )
    }

    /// The value of a sequence with one more item is the value of the
    /// sequence with the value of the item appended.
    pub proof fn lemma_views_push(s: Seq<ClassAllowedStatement>, x: ClassAllowedStatement)
        ensures
            Self::views(s.push(x)) == Self::views(s).push(x@),
            Self::views(Seq::empty()) == Seq::<ClassAllowedStatementView>::empty(),
            Self::views(s).len() == s.len(),
    {
        assert(Self::views(s.push(x)) =~= Self::views(s).push(x@));
        assert(Self::views(Seq::empty()) =~= Seq::<ClassAllowedStatementView>::empty());
    }

    /// A copy of every item of `v`, in order.
    pub fn clone_all(v: &Vec<ClassAllowedStatement>) -> (r: Vec<ClassAllowedStatement>)
        ensures
            Self::views(r@) == Self::views(v@),
        decreases v,
    {
        let mut out: Vec<ClassAllowedStatement> = Vec::new();
        let mut i: usize = 0;
        while i < v.len()
            invariant
                i <= v.len(),
                out@.len() == i,
                forall|j: int| 0 <= j < i ==> out@[j]@ == v@[j]@,
            decreases v.len() - i,
        {
            proof {
                assert(decreases_to!(v => v@));
                assert(decreases_to!(v@ => v@[i as int]));
            }
            let item = v[i].clone();
            out.push(item);
            i += 1;
        }
        assert(Self::views(out@) =~= Self::views(v@));
        out
    }
}

/// A return statement, with the value returned if there is one.
#[derive(Debug)]
pub struct Return {
    pub expression: Option<Expression>,
}

/// The mathematical value of a [`Return`].
pub ghost struct ReturnView {
    pub expression: Option<ExpressionView>,
}

impl Return {
    /// The mathematical value of the item.
    pub open spec fn model(self) -> ReturnView
        decreases self,
    {
        ReturnView {
            expression: match self.expression { Some(inner) => Some(inner.model()), None => None },
        }
    }
}

impl View for Return {
    type V = ReturnView;

    open spec fn view(&self) -> ReturnView {
        self.model()
    }
}

impl Clone for Return {
    fn clone(&self) -> (r: Self)
        ensures
            r@ == self@,
        decreases self,
    {
        Return {
            expression: match &self.expression { Some(inner) => Some((inner).clone()), None => None },
        }
    }
}

/// A function or method declaration.
#[derive(Debug)]
pub struct Function {
    /// The name; a function may have none.
    pub name: Option<String>,
    /// The parameters, in order.
    pub inputs: Vec<FunctionInput>,
    /// The body, a block.
    pub body: Box<Statement>,
    /// The return type.
    pub outputs: Option<TypeKind>,
    pub visibility: Visibility,
    pub node_id: u64,
}

/// The mathematical value of a [`Function`].
pub ghost struct FunctionView {
    pub name: Option<Seq<char>>,
    pub inputs: Seq<FunctionInputView>,
    pub body: Box<StatementView>,
    pub outputs: Option<TypeKindView>,
    pub visibility: Visibility,
    pub node_id: u64,
}

impl Function {
    /// The mathematical value of the item.
    pub open spec fn model(self) -> FunctionView
        decreases self,
    {
        FunctionView {
            name: match self.name { Some(inner) => Some(inner@), None => None },
            inputs: FunctionInput::views(self.inputs@),
            body: Box::new((*self.body).model()),
            outputs: match self.outputs { Some(inner) => Some(inner.model()), None => None },
            visibility: self.visibility,
            node_id: self.node_id,
        }
    }
}

impl View for Function {
    type V = FunctionView;

    open spec fn view(&self) -> FunctionView {
        self.model()
    }
}

impl Clone for Function {
    fn clone(&self) -> (r: Self)
        ensures
            r@ == self@,
        decreases self,
    {
        Function {
            name: match &self.name { Some(inner) => Some((inner).clone()), None => None },
            inputs: FunctionInput::clone_all(&self.inputs),
            body: Box::new((&**&self.body).clone()),
            outputs: match &self.outputs { Some(inner) => Some((inner).clone()), None => None },
            visibility: *&self.visibility,
            node_id: *&self.node_id,
        }
    }
}

impl Function {
    /// The values of the items of `s`, in order.
    pub open spec fn views(s: Seq<Function>) -> Seq<FunctionView>
        decreases s,
    {
        Seq::new(
            s.len(),
            |i: int|
                if 0 <= i < s.len() {
                    s[i].model()
                } else {
                    arbitrary()
                },
        )
    }

    /// The value of a sequence with one more item is the value of the
    /// sequence with the value of the item appended.
    pub proof fn lemma_views_push(s: Seq<Function>, x: Function)
        ensures
            Self::views(s.push(x)) == Self::views(s).push(x@),
            Self::views(Seq::empty()) == Seq::<FunctionView>::empty(),
            Self::views(s).len() == s.len(),
    {
        assert(Self::views(s.push(x)) =~= Self::views(s).push(x@));
        assert(Self::views(Seq::empty()) =~= Seq::<FunctionView>::empty());
    }

    /// A copy of every item of `v`, in order.
    pub fn clone_all(v: &Vec<Function>) -> (r: Vec<Function>)
        ensures
            Self::views(r@) == Self::views(v@),
        decreases v,
    {
        let mut out: Vec<Function> = Vec::new();
        let mut i: usize = 0;
        while i < v.len()
            invariant
                i <= v.len(),
                out@.len() == i,
                forall|j: int| 0 <= j < i ==> out@[j]@ == v@[j]@,
            decreases v.len() - i,
        {
            proof {
                assert(decreases_to!(v => v@));
                assert(decreases_to!(v@ => v@[i as int]));
            }
            let item = v[i].clone();
            out.push(item);
            i += 1;
        }
        assert(Self::views(out@) =~= Self::views(v@));
        out
    }
}

/// One parameter of a function.
#[derive(Debug)]
pub struct FunctionInput {
    pub name: String,
    pub ty: Option<TypeKind>,
}

/// The mathematical value of a [`FunctionInput`].
pub ghost struct FunctionInputView {
    pub name: Seq<char>,
    pub ty: Option<TypeKindView>,
}

impl FunctionInput {
    /// The mathematical value of the item.
    pub open spec fn model(self) -> FunctionInputView
        decreases self,
    {
        FunctionInputView {
            name: self.name@,
            ty: match self.ty { Some(inner) => Some(inner.model()), None => None },
        }
    }
}

impl View for FunctionInput {
    type V = FunctionInputView;

    open spec fn view(&self) -> FunctionInputView {
        self.model()
    }
}

impl Clone for FunctionInput {
    fn clone(&self) -> (r: Self)
        ensures
            r@ == self@,
        decreases self,
    {
        FunctionInput {
            name: (&self.name).clone(),
            ty: match &self.ty { Some(inner) => Some((inner).clone()), None => None },
        }
    }
}

impl FunctionInput {
    /// The values of the items of `s`, in order.
    pub open spec fn views(s: Seq<FunctionInput>) -> Seq<FunctionInputView>
        decreases s,
    {
        Seq::new(
            s.len(),
            |i: int|
                if 0 <= i < s.len() {
                    s[i].model()
                } else {
                    arbitrary()
                },
        )
    }

    /// The value of a sequence with one more item is the value of the
    /// sequence with the value of the item appended.
    pub proof fn lemma_views_push(s: Seq<FunctionInput>, x: FunctionInput)
        ensures
            Self::views(s.push(x)) == Self::views(s).push(x@),
            Self::views(Seq::empty()) == Seq::<FunctionInputView>::empty(),
            Self::views(s).len() == s.len(),
    {
        assert(Self::views(s.push(x)) =~= Self::views(s).push(x@));
        assert(Self::views(Seq::empty()) =~= Seq::<FunctionInputView>::empty());
    }

    /// A copy of every item of `v`, in order.
    pub fn clone_all(v: &Vec<FunctionInput>) -> (r: Vec<FunctionInput>)
        ensures
            Self::views(r@) == Self::views(v@),
        decreases v,
    {
        let mut out: Vec<FunctionInput> = Vec::new();
        let mut i: usize = 0;
        while i < v.len()
            invariant
                i <= v.len(),
                out@.len() == i,
                forall|j: int| 0 <= j < i ==> out@[j]@ == v@[j]@,
            decreases v.len() - i,
        {
            proof {
                assert(decreases_to!(v => v@));
                assert(decreases_to!(v@ => v@[i as int]));
            }
            let item = v[i].clone();
            out.push(item);
            i += 1;
        }
        assert(Self::views(out@) =~= Self::views(v@));
        out
    }
}

/// A call of a function by its name: `foo()`.
#[derive(Debug)]
pub struct Call {
    pub name: String,
    pub arguments: Vec<Expression>,
}

/// The mathematical value of a [`Call`].
pub ghost struct CallView {
    pub name: Seq<char>,
    pub arguments: Seq<ExpressionView>,
}

impl Call {
    /// The mathematical value of the item.
    pub open spec fn model(self) -> CallView
        decreases self,
    {
        CallView {
            name: self.name@,
            arguments: Expression::views(self.arguments@),
        }
    }
}

impl View for Call {
    type V = CallView;

    open spec fn view(&self) -> CallView {
        self.model()
    }
}

impl Clone for Call {
    fn clone(&self) -> (r: Self)
        ensures
            r@ == self@,
        decreases self,
    {
        Call {
            name: (&self.name).clone(),
            arguments: Expression::clone_all(&self.arguments),
        }
    }
}

/// A call of a constructor: `new Foo()`.
#[derive(Debug)]
pub struct NewCall {
    pub name: String,
    pub arguments: Vec<Expression>,
}

/// The mathematical value of a [`NewCall`].
pub ghost struct NewCallView {
    pub name: Seq<char>,
    pub arguments: Seq<ExpressionView>,
}

impl NewCall {
    /// The mathematical value of the item.
    pub open spec fn model(self) -> NewCallView
        decreases self,
    {
        NewCallView {
            name: self.name@,
            arguments: Expression::views(self.arguments@),
        }
    }
}

impl View for NewCall {
    type V = NewCallView;

    open spec fn view(&self) -> NewCallView {
        self.model()
    }
}

impl Clone for NewCall {
    fn clone(&self) -> (r: Self)
        ensures
            r@ == self@,
        decreases self,
    {
        NewCall {
            name: (&self.name).clone(),
            arguments: Expression::clone_all(&self.arguments),
        }
    }
}

/// A call of a method: `foo.bar()`.
#[derive(Debug)]
pub struct MethodCall {
    pub name: String,
    pub arguments: Vec<Expression>,
    pub callee: Box<Expression>,
}

/// The mathematical value of a [`MethodCall`].
pub ghost struct MethodCallView {
    pub name: Seq<char>,
    pub arguments: Seq<ExpressionView>,
    pub callee: Box<ExpressionView>,
}

impl MethodCall {
    /// The mathematical value of the item.
    pub open spec fn model(self) -> MethodCallView
        decreases self,
    {
        MethodCallView {
            name: self.name@,
            arguments: Expression::views(self.arguments@),
            callee: Box::new((*self.callee).model()),
        }
    }
}

impl View for MethodCall {
    type V = MethodCallView;

    open spec fn view(&self) -> MethodCallView {
        self.model()
    }
}

impl Clone for MethodCall {
    fn clone(&self) -> (r: Self)
        ensures
            r@ == self@,
        decreases self,
    {
        MethodCall {
            name: (&self.name).clone(),
            arguments: Expression::clone_all(&self.arguments),
            callee: Box::new((&**&self.callee).clone()),
        }
    }
}

/// A `var` or `const` binding.
#[derive(Debug)]
pub struct Variable {
    pub name: String,
    pub node_id: u64,
    pub ty: Option<TypeKind>,
    pub visibility: Visibility,
    pub assignment: Option<Expression>,
}

/// The mathematical value of a [`Variable`].
pub ghost struct VariableView {
    pub name: Seq<char>,
    pub node_id: u64,
    pub ty: Option<TypeKindView>,
    pub visibility: Visibility,
    pub assignment: Option<ExpressionView>,
}

impl Variable {
    /// The mathematical value of the item.
    pub open spec fn model(self) -> VariableView
        decreases self,
    {
        VariableView {
            name: self.name@,
            node_id: self.node_id,
            ty: match self.ty { Some(inner) => Some(inner.model()), None => None },
            visibility: self.visibility,
            assignment: match self.assignment { Some(inner) => Some(inner.model()), None => None },
        }
    }
}

impl View for Variable {
    type V = VariableView;

    open spec fn view(&self) -> VariableView {
        self.model()
    }
}

impl Clone for Variable {
    fn clone(&self) -> (r: Self)
        ensures
            r@ == self@,
        decreases self,
    {
        Variable {
            name: (&self.name).clone(),
            node_id: *&self.node_id,
            ty: match &self.ty { Some(inner) => Some((inner).clone()), None => None },
            visibility: *&self.visibility,
            assignment: match &self.assignment { Some(inner) => Some((inner).clone()), None => None },
        }
    }
}

/// A module path: a name and the parts that follow it.
#[derive(Debug)]
pub struct Path {
    pub name: String,
    pub parts: Vec<Path>,
}

/// The mathematical value of a [`Path`].
pub ghost struct PathView {
    pub name: Seq<char>,
    pub parts: Seq<PathView>,
}

impl Path {
    /// The mathematical value of the item.
    pub open spec fn model(self) -> PathView
        decreases self,
    {
        PathView {
            name: self.name@,
            parts: Path::views(self.parts@),
        }
    }
}

impl View for Path {
    type V = PathView;

    open spec fn view(&self) -> PathView {
        self.model()
    }
}

impl Clone for Path {
    fn clone(&self) -> (r: Self)
        ensures
            r@ == self@,
        decreases self,
    {
        Path {
            name: (&self.name).clone(),
            parts: Path::clone_all(&self.parts),
        }
    }
}

impl Path {
    /// The values of the items of `s`, in order.
    pub open spec fn views(s: Seq<Path>) -> Seq<PathView>
        decreases s,
    {
        Seq::new(
            s.len(),
            |i: int|
                if 0 <= i < s.len() {
                    s[i].model()
                } else {
                    arbitrary()
                },
        )
    }

    /// A copy of every item of `v`, in order.
    pub fn clone_all(v: &Vec<Path>) -> (r: Vec<Path>)
        ensures
            Self::views(r@) == Self::views(v@),
        decreases v,
    {
        let mut out: Vec<Path> = Vec::new();
        let mut i: usize = 0;
        while i < v.len()
            invariant
                i <= v.len(),
                out@.len() == i,
                forall|j: int| 0 <= j < i ==> out@[j]@ == v@[j]@,
            decreases v.len() - i,
        {
            proof {
                assert(decreases_to!(v => v@));
                assert(decreases_to!(v@ => v@[i as int]));
            }
            let item = v[i].clone();
            out.push(item);
            i += 1;
        }
        assert(Self::views(out@) =~= Self::views(v@));
        out
    }
}

/// A namespace declaration, with its body if it has one.
#[derive(Debug)]
pub struct Namespace {
    pub path: Path,
    pub body: Option<Box<Statement>>,
}

/// The mathematical value of a [`Namespace`].
pub ghost struct NamespaceView {
    pub path: PathView,
    pub body: Option<Box<StatementView>>,
}

impl Namespace {
    /// The mathematical value of the item.
    pub open spec fn model(self) -> NamespaceView
        decreases self,
    {
        NamespaceView {
            path: self.path.model(),
            body: match self.body { Some(inner) => Some(Box::new((*inner).model())), None => None },
        }
    }
}

impl View for Namespace {
    type V = NamespaceView;

    open spec fn view(&self) -> NamespaceView {
        self.model()
    }
}

impl Clone for Namespace {
    fn clone(&self) -> (r: Self)
        ensures
            r@ == self@,
        decreases self,
    {
        Namespace {
            path: (&self.path).clone(),
            body: match &self.body { Some(inner) => Some(Box::new((&**inner).clone())), None => None },
        }
    }
}

/// A macro invocation: the name of the macro and its body as written.
#[derive(Debug)]
pub struct CompilerMacro {
    pub name: String,
    pub body: String,
}

/// The mathematical value of a [`CompilerMacro`].
pub ghost struct CompilerMacroView {
    pub name: Seq<char>,
    pub body: Seq<char>,
}

impl CompilerMacro {
    /// The mathematical value of the item.
    pub open spec fn model(self) -> CompilerMacroView
        decreases self,
    {
        CompilerMacroView {
            name: self.name@,
            body: self.body@,
        }
    }
}

impl View for CompilerMacro {
    type V = CompilerMacroView;

    open spec fn view(&self) -> CompilerMacroView {
        self.model()
    }
}

impl Clone for CompilerMacro {
    fn clone(&self) -> (r: Self)
        ensures
            r@ == self@,
        decreases self,
    {
        CompilerMacro {
            name: (&self.name).clone(),
            body: (&self.body).clone(),
        }
    }
}

/// What a node of the program holds.
#[derive(Debug)]
pub enum NodeKind {
    Expression(Expression),
    Statement(Statement),
}

/// The mathematical value of a [`NodeKind`].
pub ghost enum NodeKindView {
    Expression(ExpressionView),
    Statement(StatementView),
}

impl NodeKind {
    /// The mathematical value of the item.
    pub open spec fn model(self) -> NodeKindView
        decreases self,
    {
        match self {
            NodeKind::Expression(x) => NodeKindView::Expression(x.model()),
            NodeKind::Statement(x) => NodeKindView::Statement(x.model()),
        }
    }
}

impl View for NodeKind {
    type V = NodeKindView;

    open spec fn view(&self) -> NodeKindView {
        self.model()
    }
}

impl Clone for NodeKind {
    fn clone(&self) -> (r: Self)
        ensures
            r@ == self@,
        decreases self,
    {
        match self {
            NodeKind::Expression(x) => NodeKind::Expression((x).clone()),
            NodeKind::Statement(x) => NodeKind::Statement((x).clone()),
        }
    }
}

/// One top-level unit of a program, with the bytes of the source that it covers.
#[derive(Debug)]
pub struct Node {
    kind: NodeKind,
    start: usize,
    end: usize,
}

/// The mathematical value of a [`Node`].
pub ghost struct NodeView {
    pub kind: NodeKindView,
    pub start: usize,
    pub end: usize,
}

impl Node {
    /// The mathematical value of the item.
    pub closed spec fn model(self) -> NodeView
        decreases self,
    {
        NodeView {
            kind: self.kind.model(),
            start: self.start,
            end: self.end,
        }
    }
}

impl View for Node {
    type V = NodeView;

    closed spec fn view(&self) -> NodeView {
        self.model()
    }
}

impl Clone for Node {
    fn clone(&self) -> (r: Self)
        ensures
            r@ == self@,
        decreases self,
    {
        Node {
            kind: (&self.kind).clone(),
            start: *&self.start,
            end: *&self.end,
        }
    }
}

impl Node {
    /// The values of the items of `s`, in order.
    pub open spec fn views(s: Seq<Node>) -> Seq<NodeView>
        decreases s,
    {
        Seq::new(
            s.len(),
            |i: int|
                if 0 <= i < s.len() {
                    s[i]@
                } else {
                    arbitrary()
                },
        )
    }

    /// The value of a sequence with one more item is the value of the
    /// sequence with the value of the item appended.
    pub proof fn lemma_views_push(s: Seq<Node>, x: Node)
        ensures
            Self::views(s.push(x)) == Self::views(s).push(x@),
            Self::views(Seq::empty()) == Seq::<NodeView>::empty(),
            Self::views(s).len() == s.len(),
    {
        assert(Self::views(s.push(x)) =~= Self::views(s).push(x@));
        assert(Self::views(Seq::empty()) =~= Seq::<NodeView>::empty());
    }

    /// A copy of every item of `v`, in order.
    pub fn clone_all(v: &Vec<Node>) -> (r: Vec<Node>)
        ensures
            Self::views(r@) == Self::views(v@),
        decreases v,
    {
        let mut out: Vec<Node> = Vec::new();
        let mut i: usize = 0;
        while i < v.len()
            invariant
                i <= v.len(),
                out@.len() == i,
                forall|j: int| 0 <= j < i ==> out@[j]@ == v@[j]@,
            decreases v.len() - i,
        {
            proof {
                assert(decreases_to!(v => v@));
                assert(decreases_to!(v@ => v@[i as int]));
            }
            let item = v[i].clone();
            out.push(item);
            i += 1;
        }
        assert(Self::views(out@) =~= Self::views(v@));
        out
    }
}

impl Literal {
    pub fn new(value: String, ty: Option<TypeKind>) -> (r: Self)
        ensures
            r == (Literal { value, ty }),
            r@ == (LiteralView {
                value: value@,
                ty: match ty {
                    Some(inner) => Some(inner@),
                    None => None,
                },
            }),
    {
        Self { value, ty }
    }
}

impl MemberListNode {
    pub fn new(name: Expression, origin: Token, lookup: MemberLookup) -> (r: MemberListNode)
        ensures
            r == (MemberListNode { name: Box::new(name), origin, lookup }),
            r@ == (MemberListNodeView { name: Box::new(name@), origin: origin@, lookup }),
    {
        MemberListNode { name: Box::new(name), origin, lookup }
    }
}

impl Array {
    pub fn new(values: Vec<Expression>, ty: Option<TypeKind>) -> (r: Array)
        ensures
            r == (Array { values, ty }),
            r@ == (ArrayView {
                values: Expression::views(values@),
                ty: match ty {
                    Some(inner) => Some(inner@),
                    None => None,
                },
            }),
    {
        Array { values, ty }
    }
}

impl Object {
    /// Appends a property.
    pub fn push_property(&mut self, property: ObjectProperty)
        ensures
            final(self)@ == (ObjectView {
                properties: old(self)@.properties.push(property@),
                ..old(self)@
            }),
    {
        proof {
            ObjectProperty::lemma_views_push(self.properties@, property);
        }
        self.properties.push(property);
    }

    pub fn new(properties: Vec<ObjectProperty>, ty: Option<TypeKind>) -> (r: Object)
        ensures
            r == (Object { properties, ty }),
    {
        Object { properties, ty }
    }

    /// An object without properties and without a type.
    pub fn empty() -> (r: Object)
        ensures
            r.properties@ == Seq::<ObjectProperty>::empty(),
            r.ty is None,
            r@ == (ObjectView { properties: Seq::empty(), ty: None }),
    {
        let r = Object { properties: Vec::new(), ty: None };
        proof {
            assert(ObjectProperty::views(r.properties@) =~= Seq::empty());
        }
        r
    }
}

impl ObjectProperty {
    pub fn new(name: String, value: Expression) -> (r: ObjectProperty)
        ensures
            r == (ObjectProperty { name, value }),
            r@ == (ObjectPropertyView { name: name@, value: value@ }),
    {
        ObjectProperty { name, value }
    }
}

impl Operation {
    pub fn new(left: Expression, op: AnyOperation, right: Expression) -> (r: Operation)
        ensures
            r == (Operation { left: Box::new(left), right: Box::new(right), op }),
            r@ == (OperationView { left: Box::new(left@), right: Box::new(right@), op }),
    {
        Operation { left: Box::new(left), right: Box::new(right), op }
    }
}

impl Statement {
    /// The expressions of a block. `None` for any other statement.
    pub fn get_block(&self) -> (r: Option<Vec<Expression>>)
        ensures
            r is Some <==> *self is Block,
            match (r, *self) {
                (Some(v), Statement::Block(x)) => Expression::views(v@) == Expression::views(x@),
                _ => true,
            },
    {
        match self {
            Statement::Block(x) => Some(Expression::clone_all(x)),
            _ => None,
        }
    }

    /// The alias of a type definition. `None` for any other statement.
    pub fn get_type_definition(&self) -> (r: Option<TypeDefinition>)
        ensures
            r is Some <==> *self is TypeDef,
            match (r, *self) {
                (Some(v), Statement::TypeDef(x)) => v@ == x@,
                _ => true,
            },
    {
        match self {
            Statement::TypeDef(x) => Some(x.clone()),
            _ => None,
        }
    }

    /// The alias of a type definition. `None` for any other statement.
    pub fn get_type(&self) -> (r: Option<TypeDefinition>)
        ensures
            r is Some <==> *self is TypeDef,
            match (r, *self) {
                (Some(v), Statement::TypeDef(x)) => v@ == x@,
                _ => true,
            },
    {
        match self {
            Statement::TypeDef(x) => Some(x.clone()),
            _ => None,
        }
    }

    /// The function of a function declaration. `None` for any other statement.
    pub fn get_function(&self) -> (r: Option<Function>)
        ensures
            r is Some <==> *self is Function,
            match (r, *self) {
                (Some(v), Statement::Function(x)) => v@ == x@,
                _ => true,
            },
    {
        match self {
            Statement::Function(x) => Some(x.clone()),
            _ => None,
        }
    }

    /// The class of a class declaration. `None` for any other statement.
    pub fn get_class(&self) -> (r: Option<Class>)
        ensures
            r is Some <==> *self is Class,
            match (r, *self) {
                (Some(v), Statement::Class(x)) => v@ == x@,
                _ => true,
            },
    {
        match self {
            Statement::Class(x) => Some(x.clone()),
            _ => None,
        }
    }

    /// The path of an import. `None` for any other statement.
    pub fn get_import(&self) -> (r: Option<Path>)
        ensures
            r is Some <==> *self is Import,
            match (r, *self) {
                (Some(v), Statement::Import(x)) => v@ == x@,
                _ => true,
            },
    {
        match self {
            Statement::Import(x) => Some(x.clone()),
            _ => None,
        }
    }

    /// The macro of a macro invocation. `None` for any other statement.
    pub fn get_macro_invocation(&self) -> (r: Option<CompilerMacro>)
        ensures
            r is Some <==> *self is MacroInvocation,
            match (r, *self) {
                (Some(v), Statement::MacroInvocation(x)) => v@ == x@,
                _ => true,
            },
    {
        match self {
            Statement::MacroInvocation(x) => Some(x.clone()),
            _ => None,
        }
    }

    /// The binding of a `var` declaration. `None` for any other statement.
    pub fn get_mutable(&self) -> (r: Option<Variable>)
        ensures
            r is Some <==> *self is Var,
            match (r, *self) {
                (Some(v), Statement::Var(x)) => v@ == x@,
                _ => true,
            },
    {
        match self {
            Statement::Var(x) => Some(x.clone()),
            _ => None,
        }
    }

    /// The binding of a `const` declaration. `None` for any other statement.
    pub fn get_immutable(&self) -> (r: Option<Variable>)
        ensures
            r is Some <==> *self is Const,
            match (r, *self) {
                (Some(v), Statement::Const(x)) => v@ == x@,
                _ => true,
            },
    {
        match self {
            Statement::Const(x) => Some(x.clone()),
            _ => None,
        }
    }

    /// The statement of a `static` declaration. `None` for any other statement.
    pub fn get_static(&self) -> (r: Option<Static>)
        ensures
            r is Some <==> *self is Static,
            match (r, *self) {
                (Some(v), Statement::Static(x)) => v@ == x@,
                _ => true,
            },
    {
        match self {
            Statement::Static(x) => Some(x.clone()),
            _ => None,
        }
    }

    pub fn is_block(&self) -> (b: bool)
        ensures
            b == (*self is Block),
    {
        match self {
            Statement::Block(_) => true,
            _ => false,
        }
    }

    pub fn is_class(&self) -> (b: bool)
        ensures
            b == (*self is Class),
    {
        match self {
            Statement::Class(_) => true,
            _ => false,
        }
    }

    pub fn is_function(&self) -> (b: bool)
        ensures
            b == (*self is Function),
    {
        match self {
            Statement::Function(_) => true,
            _ => false,
        }
    }

    pub fn is_import(&self) -> (b: bool)
        ensures
            b == (*self is Import),
    {
        match self {
            Statement::Import(_) => true,
            _ => false,
        }
    }

    pub fn is_macro_invocation(&self) -> (b: bool)
        ensures
            b == (*self is MacroInvocation),
    {
        match self {
            Statement::MacroInvocation(_) => true,
            _ => false,
        }
    }

    pub fn is_mutable(&self) -> (b: bool)
        ensures
            b == (*self is Var),
    {
        match self {
            Statement::Var(_) => true,
            _ => false,
        }
    }

    pub fn is_immutable(&self) -> (b: bool)
        ensures
            b == (*self is Const),
    {
        match self {
            Statement::Const(_) => true,
            _ => false,
        }
    }

    pub fn is_type(&self) -> (b: bool)
        ensures
            b == (*self is TypeDef),
    {
        match self {
            Statement::TypeDef(_) => true,
            _ => false,
        }
    }

    pub fn is_static(&self) -> (b: bool)
        ensures
            b == (*self is Static),
    {
        match self {
            Statement::Static(_) => true,
            _ => false,
        }
    }

    pub fn is_namespace(&self) -> (b: bool)
        ensures
            b == (*self is Namespace),
    {
        match self {
            Statement::Namespace(_) => true,
            _ => false,
        }
    }

    pub fn is_return(&self) -> (b: bool)
        ensures
            b == (*self is Return),
    {
        match self {
            Statement::Return(_) => true,
            _ => false,
        }
    }

}

impl Visibility {
    /// The visibility that a keyword stands for. A keyword that is no
    /// visibility modifier stands for private visibility.
    pub open spec fn of_keyword(keyword: KeyWord) -> Visibility {
        match keyword {
            KeyWord::Public => Visibility::Public,
            KeyWord::Private => Visibility::Private,
            KeyWord::Protected => Visibility::Protected,
            _ => Visibility::Private,
        }
    }

    pub fn from_keyword(keyword: KeyWord) -> (v: Self)
        ensures
            v == Self::of_keyword(keyword),
    {
        match keyword {
            KeyWord::Public => Visibility::Public,
            KeyWord::Private => Visibility::Private,
            KeyWord::Protected => Visibility::Protected,
            _ => Visibility::Private,
        }
    }
}

impl Static {
    pub fn new(visibility: Visibility, statement: Statement) -> (r: Static)
        ensures
            r == (Static { visibility, statement: Box::new(statement) }),
            r@ == (StaticView { visibility, statement: Box::new(statement@) }),
    {
        Static { visibility, statement: Box::new(statement) }
    }
}

impl Class {
    /// The class with the given name, superclass, interfaces, members and
    /// node id.
    pub fn with(
        name: String,
        extends: Option<String>,
        implements: Option<Vec<String>>,
        body: ClassBody,
        node_id: u64,
    ) -> (r: Self)
        ensures
            r@ == (ClassView {
                name: name@,
                extends: match extends {
                    Some(inner) => Some(inner@),
                    None => None,
                },
                implements: match implements {
                    Some(inner) => Some(crate::text::strings_view(inner@)),
                    None => None,
                },
                body: body@,
                node_id,
            }),
    {
        Class { name, extends, implements, body, node_id }
    }

    /// A class without a name and without members.
    pub fn new() -> (r: Self)
        ensures
            r@ == (ClassView {
                name: Seq::empty(),
                extends: None,
                implements: None,
                body: ClassBodyView {
                    properties: Seq::empty(),
                    methods: Seq::empty(),
                    other: Seq::empty(),
                },
                node_id: 0,
            }),
    {
        Class {
            name: String::new(),
            extends: None,
            implements: None,
            body: ClassBody::new(),
            node_id: 0,
        }
    }
}

impl ClassProperty {
    pub fn new(
        name: String,
        visibility: Visibility,
        ty: Option<TypeKind>,
        assignment: Option<Expression>,
    ) -> (r: Self)
        ensures
            r == (ClassProperty { name, visibility, ty, assignment }),
            r@ == (ClassPropertyView {
                name: name@,
                visibility,
                ty: match ty {
                    Some(inner) => Some(inner@),
                    None => None,
                },
                assignment: match assignment {
                    Some(inner) => Some(inner@),
                    None => None,
                },
            }),
    {
        ClassProperty { name, visibility, ty, assignment }
    }
}

impl ClassBody {
    /// Appends a property.
    pub fn push_property(&mut self, property: ClassProperty)
        ensures
            final(self)@ == (ClassBodyView {
                properties: old(self)@.properties.push(property@),
                ..old(self)@
            }),
    {
        proof {
            ClassProperty::lemma_views_push(self.properties@, property);
        }
        self.properties.push(property);
    }

    /// Appends a method.
    pub fn push_method(&mut self, method: Function)
        ensures
            final(self)@ == (ClassBodyView {
                methods: old(self)@.methods.push(method@),
                ..old(self)@
            }),
    {
        proof {
            Function::lemma_views_push(self.methods@, method);
        }
        self.methods.push(method);
    }

    /// Appends a member that is neither a plain property nor a plain
    /// method.
    pub fn push_other(&mut self, other: ClassAllowedStatement)
        ensures
            final(self)@ == (ClassBodyView { other: old(self)@.other.push(other@), ..old(self)@ }),
    {
        proof {
            ClassAllowedStatement::lemma_views_push(self.other@, other);
        }
        self.other.push(other);
    }

    /// A class body without members.
    pub fn new() -> (r: Self)
        ensures
            r.properties@ == Seq::<ClassProperty>::empty(),
            r.methods@ == Seq::<Function>::empty(),
            r.other@ == Seq::<ClassAllowedStatement>::empty(),
            r@ == (ClassBodyView {
                properties: Seq::empty(),
                methods: Seq::empty(),
                other: Seq::empty(),
            }),
    {
        let r = ClassBody { properties: Vec::new(), methods: Vec::new(), other: Vec::new() };
        proof {
            assert(ClassProperty::views(r.properties@) =~= Seq::empty());
            assert(Function::views(r.methods@) =~= Seq::empty());
            assert(ClassAllowedStatement::views(r.other@) =~= Seq::empty());
        }
        r
    }
}

impl ClassAllowedStatement {
    /// The statement `s`, marked static.
    pub fn new_static(s: ClassAllowedStatement) -> (r: Self)
        ensures
            r == ClassAllowedStatement::Static(Box::new(s)),
            r@ == ClassAllowedStatementView::Static(Box::new(s@)),
    {
        ClassAllowedStatement::Static(Box::new(s))
    }
}

impl Return {
    pub fn new(expression: Option<Expression>) -> (r: Self)
        ensures
            r == (Return { expression }),
            r@ == (ReturnView {
                expression: match expression {
                    Some(inner) => Some(inner@),
                    None => None,
                },
            }),
    {
        Return { expression }
    }

    /// The expression that returns `value`.
    pub fn of(value: Expression) -> (r: Expression)
        ensures
            r@ == ExpressionView::Statement(
                Box::new(StatementView::Return(ReturnView { expression: Some(value@) })),
            ),
    {
        let returned = Return::new(Some(value));
        assert(returned@ == (ReturnView { expression: Some(value@) }));
        let statement = Statement::Return(returned);
        assert(statement@ == StatementView::Return(returned@));
        Expression::Statement(Box::new(statement))
    }
}

impl Function {
    /// The function with the given name, parameters, return type and
    /// visibility, whose body is the block of `items` and whose node id is
    /// zero.
    pub fn new(
        name: Option<String>,
        inputs: Vec<FunctionInput>,
        outputs: Option<TypeKind>,
        items: Vec<Expression>,
        visibility: Visibility,
    ) -> (r: Self)
        ensures
            r@ == (FunctionView {
                name: match name {
                    Some(inner) => Some(inner@),
                    None => None,
                },
                inputs: FunctionInput::views(inputs@),
                body: Box::new(StatementView::Block(Expression::views(items@))),
                outputs: match outputs {
                    Some(inner) => Some(inner@),
                    None => None,
                },
                visibility,
                node_id: 0,
            }),
    {
        let body = Statement::Block(items);
        assert(body@ == StatementView::Block(Expression::views(items@)));
        Function { name, inputs, body: Box::new(body), outputs, visibility, node_id: 0 }
    }

    /// This function with the visibility `visibility`.
    pub fn with_visibility(self, visibility: Visibility) -> (r: Self)
        ensures
            r@ == (FunctionView { visibility, ..self@ }),
    {
        let mut r = self;
        r.visibility = visibility;
        r
    }
}

impl FunctionInput {
    pub fn new(name: String, ty: Option<TypeKind>) -> (r: Self)
        ensures
            r == (FunctionInput { name, ty }),
            r@ == (FunctionInputView {
                name: name@,
                ty: match ty {
                    Some(inner) => Some(inner@),
                    None => None,
                },
            }),
    {
        FunctionInput { name, ty }
    }
}

impl Call {
    pub fn new(name: String, arguments: Vec<Expression>) -> (r: Self)
        ensures
            r == (Call { name, arguments }),
            r@ == (CallView { name: name@, arguments: Expression::views(arguments@) }),
    {
        Call { name, arguments }
    }
}

impl NewCall {
    pub fn new(name: String, arguments: Vec<Expression>) -> (r: Self)
        ensures
            r == (NewCall { name, arguments }),
            r@ == (NewCallView { name: name@, arguments: Expression::views(arguments@) }),
    {
        NewCall { name, arguments }
    }
}

impl Variable {
    /// A binding whose node id is zero.
    pub fn new(
        name: String,
        ty: Option<TypeKind>,
        visibility: Visibility,
        assignment: Option<Expression>,
    ) -> (r: Self)
        ensures
            r == (Variable { name, node_id: 0, ty, visibility, assignment }),
            r@ == (VariableView {
                name: name@,
                node_id: 0,
                ty: match ty {
                    Some(inner) => Some(inner@),
                    None => None,
                },
                visibility,
                assignment: match assignment {
                    Some(inner) => Some(inner@),
                    None => None,
                },
            }),
    {
        Self { name, node_id: 0, ty, visibility, assignment }
    }

    /// Whether the binding has no initial value.
    pub fn is_uninit(&self) -> (b: bool)
        ensures
            b == (self.assignment is None),
            b == (self@.assignment is None),
    {
        self.assignment.is_none()
    }

    /// The class property with the name, visibility, type and initial value
    /// of this binding.
    pub fn to_class_property(&self) -> (p: ClassProperty)
        ensures
            p@ == (ClassPropertyView {
                name: self@.name,
                visibility: self@.visibility,
                ty: self@.ty,
                assignment: self@.assignment,
            }),
    {
        ClassProperty {
            name: self.name.clone(),
            visibility: self.visibility,
            ty: match &self.ty {
                Some(t) => Some(t.clone()),
                None => None,
            },
            assignment: match &self.assignment {
                Some(e) => Some(e.clone()),
                None => None,
            },
        }
    }
}

impl Path {
    /// The path whose parts are the names `parts`, each without parts of
    /// its own.
    pub open spec fn flat(name: Seq<char>, parts: Seq<Seq<char>>) -> PathView {
        PathView {
            name,
            parts: Seq::new(parts.len(), |i: int| PathView { name: parts[i], parts: Seq::empty() }),
        }
    }

    /// The path that is a single name.
    pub fn new(name: String) -> (r: Self)
        ensures
            r@ == (PathView { name: name@, parts: Seq::empty() }),
    {
        let r = Self { name, parts: Vec::new() };
        proof {
            assert(Path::views(r.parts@) =~= Seq::empty());
        }
        r
    }

    /// The path `name` followed by the names `parts`.
    pub fn from(name: String, parts: Vec<String>) -> (r: Self)
        ensures
            r@ == Self::flat(name@, crate::text::strings_view(parts@)),
    {
        let mut subs: Vec<Path> = Vec::new();
        let n = parts.len();
        let mut i: usize = 0;
        while i < n
            invariant
                n == parts.len(),
                i <= n,
                subs@.len() == i,
                forall|j: int|
                    0 <= j < i ==> (#[trigger] subs@[j])@ == (PathView {
                        name: parts@[j]@,
                        parts: Seq::empty(),
                    }),
            decreases n - i,
        {
            let part = Path::new(parts[i].clone());
            subs.push(part);
            i += 1;
        }
        let r = Path { name, parts: subs };
        proof {
            assert(r@.parts =~= Self::flat(name@, crate::text::strings_view(parts@)).parts);
        }
        r
    }
}

impl Namespace {
    /// The namespace `path` whose body is the block of `items`.
    pub fn with_block(path: Path, items: Vec<Expression>) -> (r: Self)
        ensures
            r@ == (NamespaceView {
                path: path@,
                body: Some(Box::new(StatementView::Block(Expression::views(items@)))),
            }),
    {
        let body = Statement::Block(items);
        assert(body@ == StatementView::Block(Expression::views(items@)));
        Namespace { path, body: Some(Box::new(body)) }
    }

    /// A namespace without a body.
    pub fn new(path: Path) -> (r: Self)
        ensures
            r == (Namespace { path, body: None }),
            r@ == (NamespaceView { path: path@, body: None }),
    {
        Namespace { path, body: None }
    }
}

impl NodeKind {
    /// The node content that holds `statement`.
    pub fn from_statement(statement: Statement) -> (k: Self)
        ensures
            k == NodeKind::Statement(statement),
            k@ == NodeKindView::Statement(statement@),
    {
        NodeKind::Statement(statement)
    }

    /// The node content that holds `expression`.
    pub fn from_expression(expression: Expression) -> (k: Self)
        ensures
            k == NodeKind::Expression(expression),
            k@ == NodeKindView::Expression(expression@),
    {
        NodeKind::Expression(expression)
    }
}

impl Node {
    /// A node that holds `kind` and reaches from the start of the range
    /// `start` to the end of the range `end`.
    pub fn new(kind: NodeKind, start: Range<usize>, end: Range<usize>) -> (r: Self)
        ensures
            r@ == (NodeView { kind: kind@, start: start.start, end: end.end }),
    {
        Node { kind, start: start.start, end: end.end }
    }

    /// What the node holds.
    pub fn inner(&self) -> (k: NodeKind)
        ensures
            k@ == self@.kind,
    {
        self.kind.clone()
    }

    /// The bytes of the source that the node covers.
    pub fn range(&self) -> (r: Range<usize>)
        ensures
            r.start == self@.start,
            r.end == self@.end,
    {
        self.start..self.end
    }
}

/// A parsed program: its top-level nodes in the order of the source. Nodes
/// are only ever appended.
#[derive(Debug)]
pub struct AstBody {
    flags: u64,
    program: Vec<Node>,
}

/// The mathematical value of an [`AstBody`].
pub ghost struct AstBodyView {
    pub flags: u64,
    pub program: Seq<NodeView>,
}

impl View for AstBody {
    type V = AstBodyView;

    closed spec fn view(&self) -> AstBodyView {
        AstBodyView { flags: self.flags, program: Node::views(self.program@) }
    }
}

impl Clone for AstBody {
    fn clone(&self) -> (r: Self)
        ensures
            r@ == self@,
    {
        AstBody { flags: self.flags, program: Node::clone_all(&self.program) }
    }
}

impl AstBody {
    /// A program without nodes.
    pub fn new() -> (r: Self)
        ensures
            r@ == (AstBodyView { flags: 0, program: Seq::empty() }),
    {
        let r = AstBody { flags: 0, program: Vec::new() };
        proof {
            assert(Node::views(r.program@) =~= Seq::empty());
        }
        r
    }

    /// Appends a node.
    pub fn push_node(&mut self, node: Node)
        ensures
            final(self)@ == (AstBodyView {
                program: old(self)@.program.push(node@),
                ..old(self)@
            }),
    {
        proof {
            Node::lemma_views_push(self.program@, node);
        }
        self.program.push(node);
    }

    /// Appends a statement as a node that covers no source.
    pub fn push_statement(&mut self, statement: Statement)
        ensures
            final(self)@ == (AstBodyView {
                program: old(self)@.program.push(
                    NodeView { kind: NodeKindView::Statement(statement@), start: 0, end: 0 },
                ),
                ..old(self)@
            }),
    {
        self.push_node(Node::new(NodeKind::Statement(statement), 0..0, 0..0));
    }

    /// Appends an expression as a node that covers no source.
    pub fn push_expression(&mut self, expression: Expression)
        ensures
            final(self)@ == (AstBodyView {
                program: old(self)@.program.push(
                    NodeView { kind: NodeKindView::Expression(expression@), start: 0, end: 0 },
                ),
                ..old(self)@
            }),
    {
        self.push_node(Node::new(NodeKind::Expression(expression), 0..0, 0..0));
    }

    /// The nodes of the program, in order.
    pub fn get_program(&self) -> (p: &Vec<Node>)
        ensures
            Node::views(p@) == self@.program,
    {
        &self.program
    }
}

} // verus!
