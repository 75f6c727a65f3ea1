//! The grammar of the language, as functions from a sequence of tokens and a
//! place in it to what stands there.
//!
//! A production looks at the tokens ahead without consuming them. Where the
//! construct that it stands for does not begin, it reports no match, and
//! nothing is consumed. Once it has recognised the beginning of its construct
//! it is committed: whatever is missing from then on is a fault, and no other
//! production is tried in its place. Alternatives are tried in a fixed order
//! and the first that matches or faults decides.
use vstd::prelude::*;

use crate::ast::ops::AnyOperation;
use crate::ast::types::{
    BuiltInType, TypeKindView, TypeParamView, TypeReferenceView, TypeUnionView,
};
use crate::ast::{
    ArrayView, CallView, ClassAllowedStatementView, ClassBodyView, ClassPropertyView, ClassView,
    ExpressionView, FunctionInputView, FunctionView, LiteralView, MemberListNodeView, MemberLookup,
    NamespaceView, NewCallView, NodeKindView, NodeView, ObjectPropertyView, ObjectView,
    OperationView, Path, ReturnView, StatementView, StaticView, VariableView, Visibility,
};
use crate::lexer::keyword::KeyWord;
use crate::lexer::token::{TokenType, TokenView};

verus! {

/// What the parser reads: the tokens of a source, the offset at which the
/// source ends, and the id that classes are given.
pub ghost struct Input {
    pub tokens: Seq<TokenView>,
    pub end: int,
    pub class_id: u64,
}

/// Why parsing stopped: a short reason, a longer message, an optional hint,
/// and the bytes of the source that are at fault.
pub ghost struct Fault {
    pub reason: Seq<char>,
    pub message: Seq<char>,
    pub extra: Option<Seq<char>>,
    pub start: int,
    pub end: int,
}

/// What a production finds at a place in the input.
pub ghost enum Parsed<T> {
    /// The construct stands there. It takes one token and `rest` more.
    Match { value: T, rest: nat },
    /// The construct does not begin there. Nothing is consumed.
    NoMatch,
    /// The construct begins there and is malformed.
    Fault { fault: Fault },
}

/// What a list of items comes to: the items and the place after the token
/// that closes the list, or a fault.
pub ghost enum Listed<T> {
    Done { values: T, end: int },
    Fault { fault: Fault },
}

/// The message of a fault that is raised because the input ended.
pub open spec fn exhausted_message() -> Seq<char> {
    "Whitespace terminated the code while parsing an expression or statement. Make sure that every block is closed."@
}

/// The name that messages give to the end of the input.
pub open spec fn end_of_input_name() -> Seq<char> {
    "EndOfFile"@
}

impl Input {
    /// Whether a token stands at `p`.
    pub open spec fn has(self, p: int) -> bool {
        0 <= p < self.tokens.len()
    }

    /// The number of tokens from `p` to the end, the measure by which the
    /// grammar's recursion descends.
    pub open spec fn left(self, p: int) -> nat {
        if p <= self.tokens.len() {
            (self.tokens.len() - p) as nat
        } else {
            0
        }
    }

    /// Whether a token of kind `kind` stands at `p`.
    pub open spec fn is(self, p: int, kind: TokenType) -> bool {
        self.has(p) && self.tokens[p].kind == kind
    }

    /// Whether the keyword `keyword` stands at `p`.
    pub open spec fn is_keyword(self, p: int, keyword: KeyWord) -> bool {
        self.is(p, TokenType::KeyWord(keyword))
    }

    /// Whether a visibility modifier stands at `p`.
    pub open spec fn is_visibility(self, p: int) -> bool {
        self.has(p) && self.tokens[p].kind is KeyWord && self.tokens[p].kind->KeyWord_0.visibility()
    }

    /// Whether the operator spelled `op` stands at `p`.
    pub open spec fn is_operator(self, p: int, op: Seq<char>) -> bool {
        self.has(p) && self.tokens[p].operator_is(op)
    }

    /// Whether a token that can be read as a literal stands at `p`: a name, a
    /// number, a string or a truth value.
    pub open spec fn is_literal(self, p: int) -> bool {
        self.has(p) && {
            let k = self.tokens[p].kind;
            k is Identifier || k is Number || k is StringLiteral || k is Boolean
        }
    }

    /// The text of the token at `p`, empty where it has none.
    pub open spec fn text(self, p: int) -> Seq<char> {
        self.tokens[p].text_or_empty()
    }

    /// The visibility that the modifier at `p` stands for.
    pub open spec fn visibility_at(self, p: int) -> Visibility {
        Visibility::of_keyword(self.tokens[p].kind->KeyWord_0)
    }

    /// The number of whitespace and comment tokens that follow each other
    /// from `p` on.
    pub open spec fn blanks(self, p: int) -> nat
        decreases self.left(p),
    {
        if self.has(p) && self.tokens[p].kind.blank() {
            1 + self.blanks(p + 1)
        } else {
            0
        }
    }

    /// The place of the first token at or after `p` that is neither
    /// whitespace nor a comment.
    pub open spec fn skip(self, p: int) -> int {
        p + self.blanks(p)
    }

    /// The start of the token at `p`, or the end of the source where no
    /// token stands there.
    pub open spec fn start_at(self, p: int) -> int {
        if self.has(p) {
            self.tokens[p].start as int
        } else {
            self.end
        }
    }

    /// The end of the token at `p`, or the end of the source where no token
    /// stands there.
    pub open spec fn end_at(self, p: int) -> int {
        if self.has(p) {
            self.tokens[p].end as int
        } else {
            self.end
        }
    }

    /// The name of the kind of the token at `p`.
    pub open spec fn kind_name(self, p: int) -> Seq<char> {
        if self.has(p) {
            self.tokens[p].kind.name()
        } else {
            end_of_input_name()
        }
    }

    /// A fault at the token at `p`.
    pub open spec fn fault(self, p: int, reason: Seq<char>, message: Seq<char>) -> Fault {
        Fault { reason, message, extra: None, start: self.start_at(p), end: self.end_at(p) }
    }

    /// A fault that reaches from the token at `from` to the token at `p`.
    pub open spec fn fault_from(
        self,
        from: int,
        p: int,
        reason: Seq<char>,
        message: Seq<char>,
        extra: Option<Seq<char>>,
    ) -> Fault {
        Fault {
            reason,
            message,
            extra,
            start: least(self.start_at(from), self.start_at(p)),
            end: greatest(self.end_at(from), self.end_at(p)),
        }
    }

    /// The fault that is raised where the input ends while more is needed:
    /// it reaches from the token at `p` to the end of the source.
    pub open spec fn exhausted(self, p: int, reason: Seq<char>) -> Fault {
        Fault {
            reason,
            message: exhausted_message(),
            extra: None,
            start: self.start_at(p),
            end: self.end,
        }
    }

    /// Whether the input ends before anything but whitespace and comments
    /// is found from `p` on.
    pub open spec fn runs_out(self, p: int) -> bool {
        !self.has(self.skip(p))
    }
}

/// The lesser of two offsets.
pub open spec fn least(a: int, b: int) -> int {
    if a <= b {
        a
    } else {
        b
    }
}

/// The greater of two offsets.
pub open spec fn greatest(a: int, b: int) -> int {
    if a >= b {
        a
    } else {
        b
    }
}

// ---------------------------------------------------------------------------
// Types
// ---------------------------------------------------------------------------
/// The type that `name` stands for: a built-in type if it names one, else a
/// reference to the type of that name with the type arguments `params`.
pub open spec fn named_type(name: Seq<char>, params: Option<Seq<TypeParamView>>) -> TypeKindView {
    match BuiltInType::parse(name) {
        Some(b) => TypeKindView::BuiltIn(b),
        None => TypeKindView::Reference(TypeReferenceView { name, params }),
    }
}

/// `member := IDENT generics?`, with the whitespace that follows.
#[verifier::opaque]
pub open spec fn type_member(inp: Input, p: int) -> Parsed<TypeKindView>
    decreases inp.left(p), 0nat,
{
    if !inp.is(p, TokenType::Identifier) {
        Parsed::NoMatch
    } else {
        let name = inp.text(p);
        let b = inp.blanks(p + 1);
        let q = p + 1 + b;
        match type_generics(inp, q) {
            Parsed::Fault { fault } => Parsed::Fault { fault },
            Parsed::NoMatch => Parsed::Match { value: named_type(name, None), rest: b },
            Parsed::Match { value, rest } => Parsed::Match {
                value: named_type(name, Some(value)),
                rest: b + 1 + rest + inp.blanks(q + 1 + rest),
            },
        }
    }
}

/// `type := member ("|" member)*`. One member alone is that member's type;
/// several make a union.
#[verifier::opaque]
pub open spec fn type_kind(inp: Input, p: int) -> Parsed<TypeKindView>
    decreases inp.left(p), 1nat,
{
    match type_member(inp, p) {
        Parsed::NoMatch => Parsed::NoMatch,
        Parsed::Fault { fault } => Parsed::Fault { fault },
        Parsed::Match { value, rest } => {
            if inp.is_operator(p + 1 + rest, "|"@) {
                match union_members(inp, p + 1 + rest, seq![value]) {
                    Listed::Fault { fault } => Parsed::Fault { fault },
                    Listed::Done { values, end } => Parsed::Match {
                        value: TypeKindView::Union(Box::new(TypeUnionView { types: values })),
                        rest: (end - p - 1) as nat,
                    },
                }
            } else {
                Parsed::Match { value, rest }
            }
        },
    }
}

/// The members of a union from a `|` at `q` on, after the members `acc`.
#[verifier::opaque]
pub open spec fn union_members(inp: Input, q: int, acc: Seq<TypeKindView>) -> Listed<
    Seq<TypeKindView>,
>
    decreases inp.left(q), 6nat,
{
    if !inp.is_operator(q, "|"@) {
        Listed::Done { values: acc, end: q }
    } else if inp.runs_out(q + 1) {
        Listed::Fault {
            fault: inp.exhausted(q + 1, "Expected a type reference to follow a union type."@),
        }
    } else {
        let q1 = inp.skip(q + 1);
        match type_member(inp, q1) {
            Parsed::Fault { fault } => Listed::Fault { fault },
            Parsed::NoMatch => Listed::Fault {
                fault: inp.fault(
                    q1,
                    "A type reference is expected here."@,
                    "Expected a type reference to follow a union type."@,
                ),
            },
            Parsed::Match { value, rest } => union_members(inp, q1 + 1 + rest, acc.push(value)),
        }
    }
}

/// `generics := "<" (type ","?)+ ">"`.
#[verifier::opaque]
pub open spec fn type_generics(inp: Input, p: int) -> Parsed<Seq<TypeParamView>>
    decreases inp.left(p), 1nat,
{
    if !inp.is_operator(p, "<"@) {
        Parsed::NoMatch
    } else {
        match generic_items(inp, p + 1, Seq::empty()) {
            Listed::Fault { fault } => Parsed::Fault { fault },
            Listed::Done { values, end } => Parsed::Match { value: values, rest: (end - p - 1) as nat },
        }
    }
}

/// The type arguments from `q` to the closing `>`, after the arguments `acc`.
#[verifier::opaque]
pub open spec fn generic_items(inp: Input, q: int, acc: Seq<TypeParamView>) -> Listed<
    Seq<TypeParamView>,
>
    decreases inp.left(q), 6nat,
{
    if inp.runs_out(q) {
        Listed::Fault {
            fault: inp.exhausted(q, "Expected a type paramater to follow a typed parameter list."@),
        }
    } else {
        let q1 = inp.skip(q);
        match type_kind(inp, q1) {
            Parsed::Fault { fault } => Listed::Fault { fault },
            Parsed::Match { value, rest } => generic_items(
                inp,
                q1 + 1 + rest,
                acc.push(TypeParamView { name: None, kind: value }),
            ),
            Parsed::NoMatch => {
                if inp.is_operator(q1, ">"@) {
                    if acc.len() == 0 {
                        Listed::Fault {
                            fault: inp.fault(
                                q1 + 1,
                                "A type paramater is expected here."@,
                                "Expected a type paramater to follow a typed parameter list."@,
                            ),
                        }
                    } else {
                        Listed::Done { values: acc, end: q1 + 1 }
                    }
                } else if inp.is(q1, TokenType::Comma) {
                    generic_items(inp, q1 + 1, acc)
                } else {
                    Listed::Fault {
                        fault: inp.fault(
                            q1,
                            "A type paramater is expected here."@,
                            "Expected a type paramater to follow a typed parameter list."@,
                        ),
                    }
                }
            },
        }
    }
}

// ---------------------------------------------------------------------------
// Expressions
// ---------------------------------------------------------------------------
/// `expression := left (operator expression)?`, with the whitespace that
/// follows `left`. The right operand is again a whole expression, so a chain
/// of operators nests to the right whatever the operators are.
pub open spec fn expression(inp: Input, p: int) -> Parsed<ExpressionView>
    decreases inp.left(p), 5nat,
{
    match expression_head(inp, p) {
        Parsed::NoMatch => Parsed::NoMatch,
        Parsed::Fault { fault } => Parsed::Fault { fault },
        Parsed::Match { value, rest } => {
            let b1 = inp.blanks(p + 1 + rest);
            let q = p + 1 + rest + b1;
            if !inp.is(q, TokenType::Operator) {
                Parsed::Match { value, rest: rest + b1 }
            } else {
                match AnyOperation::parse(inp.text(q)) {
                    None => Parsed::Fault {
                        fault: Fault {
                            reason: "Unknown operator: "@ + inp.text(q),
                            message: inp.text(q),
                            extra: None,
                            start: inp.start_at(q),
                            end: inp.end_at(q),
                        },
                    },
                    Some(op) => {
                        let b2 = inp.blanks(q + 1);
                        let q2 = q + 1 + b2;
                        match expression(inp, q2) {
                            Parsed::Fault { fault } => Parsed::Fault { fault },
                            Parsed::NoMatch => Parsed::Fault {
                                fault: inp.fault(
                                    q2,
                                    "An expression is expected here."@,
                                    "Expected an expression to follow an operation."@,
                                ),
                            },
                            Parsed::Match { value: right, rest: r2 } => Parsed::Match {
                                value: ExpressionView::Operation(
                                    OperationView {
                                        left: Box::new(value),
                                        right: Box::new(right),
                                        op,
                                    },
                                ),
                                rest: rest + b1 + 1 + b2 + 1 + r2,
                            },
                        }
                    },
                }
            }
        },
    }
}

/// The left operand of an expression: the first of a statement, a call, a
/// member access, an instantiation, an array, an object and a literal that
/// stands at `p`.
pub open spec fn expression_head(inp: Input, p: int) -> Parsed<ExpressionView>
    decreases inp.left(p), 4nat,
{
    match statement(inp, p) {
        Parsed::Fault { fault } => Parsed::Fault { fault },
        Parsed::Match { value, rest } => Parsed::Match {
            value: ExpressionView::Statement(Box::new(value)),
            rest,
        },
        Parsed::NoMatch => match call(inp, p) {
            Parsed::Fault { fault } => Parsed::Fault { fault },
            Parsed::Match { value, rest } => Parsed::Match {
                value: ExpressionView::Call(value),
                rest,
            },
            Parsed::NoMatch => match member(inp, p) {
                Parsed::Fault { fault } => Parsed::Fault { fault },
                Parsed::Match { value, rest } => Parsed::Match {
                    value: ExpressionView::Member(value),
                    rest,
                },
                Parsed::NoMatch => match new_call(inp, p) {
                    Parsed::Fault { fault } => Parsed::Fault { fault },
                    Parsed::Match { value, rest } => Parsed::Match {
                        value: ExpressionView::New(value),
                        rest,
                    },
                    Parsed::NoMatch => match array(inp, p) {
                        Parsed::Fault { fault } => Parsed::Fault { fault },
                        Parsed::Match { value, rest } => Parsed::Match {
                            value: ExpressionView::Array(value),
                            rest,
                        },
                        Parsed::NoMatch => match object(inp, p) {
                            Parsed::Fault { fault } => Parsed::Fault { fault },
                            Parsed::Match { value, rest } => Parsed::Match {
                                value: ExpressionView::Object(value),
                                rest,
                            },
                            Parsed::NoMatch => match literal(inp, p) {
                                Parsed::Fault { fault } => Parsed::Fault { fault },
                                Parsed::Match { value, rest } => Parsed::Match {
                                    value: ExpressionView::Literal(value),
                                    rest,
                                },
                                Parsed::NoMatch => Parsed::NoMatch,
                            },
                        },
                    },
                },
            },
        },
    }
}

/// `literal := IDENT | NUMBER | STRING | BOOLEAN`.
pub open spec fn literal(inp: Input, p: int) -> Parsed<LiteralView> {
    if inp.is_literal(p) {
        Parsed::Match { value: LiteralView { value: inp.text(p), ty: None }, rest: 0 }
    } else {
        Parsed::NoMatch
    }
}

/// `call := IDENT "(" (expression ","?)* ")"`, the parenthesis directly
/// behind the name.
pub open spec fn call(inp: Input, p: int) -> Parsed<CallView>
    decreases inp.left(p), 2nat,
{
    if !inp.is(p, TokenType::Identifier) {
        Parsed::NoMatch
    } else {
        match call_inputs(inp, p) {
            Parsed::Fault { fault } => Parsed::Fault { fault },
            Parsed::NoMatch => Parsed::NoMatch,
            Parsed::Match { value, rest } => Parsed::Match {
                value: CallView { name: inp.text(p), arguments: value },
                rest,
            },
        }
    }
}

/// The arguments of a call whose callee stands at `p`: the parenthesised
/// list directly behind the callee.
pub open spec fn call_inputs(inp: Input, p: int) -> Parsed<Seq<ExpressionView>>
    decreases inp.left(p), 1nat,
{
    if inp.has(p) && inp.is(p + 1, TokenType::LeftParenthesis) {
        match call_items(inp, p + 2, Seq::empty()) {
            Listed::Fault { fault } => Parsed::Fault { fault },
            Listed::Done { values, end } => Parsed::Match {
                value: values,
                rest: (end - p - 1) as nat,
            },
        }
    } else {
        Parsed::NoMatch
    }
}

/// The arguments of a call from `q` to the closing parenthesis, after the
/// arguments `acc`.
pub open spec fn call_items(inp: Input, q: int, acc: Seq<ExpressionView>) -> Listed<
    Seq<ExpressionView>,
>
    decreases inp.left(q), 6nat,
{
    if inp.runs_out(q) {
        Listed::Fault { fault: inp.exhausted(q, "Function arguments must be closed."@) }
    } else {
        let q1 = inp.skip(q);
        match expression(inp, q1) {
            Parsed::Fault { fault } => Listed::Fault { fault },
            Parsed::Match { value, rest } => {
                let q2 = q1 + 1 + rest;
                if inp.is(q2, TokenType::Comma) {
                    call_items(inp, q2 + 1, acc.push(value))
                } else if inp.is(q2, TokenType::RightParenthesis) {
                    Listed::Done { values: acc.push(value), end: q2 + 1 }
                } else {
                    Listed::Fault {
                        fault: inp.fault(
                            q2,
                            "A comma is expected here."@,
                            "Expected a comma to follow a function input."@,
                        ),
                    }
                }
            },
            Parsed::NoMatch => {
                if inp.is(q1, TokenType::RightParenthesis) {
                    Listed::Done { values: acc, end: q1 + 1 }
                } else {
                    Listed::Fault {
                        fault: inp.fault(
                            q1,
                            "An expression is expected here."@,
                            "Expected an expression to follow a function input."@,
                        ),
                    }
                }
            },
        }
    }
}

/// How the accessor at `p` looks its member up: `::` on the type, anything
/// else on the value.
pub open spec fn lookup_at(inp: Input, p: int) -> MemberLookup {
    if inp.text(p) == "::"@ {
        MemberLookup::Static
    } else {
        MemberLookup::Dynamic
    }
}

/// `member := IDENT ("." | "::") expression`, the accessor directly behind
/// the name.
pub open spec fn member(inp: Input, p: int) -> Parsed<MemberListNodeView>
    decreases inp.left(p), 1nat,
{
    if inp.is(p, TokenType::Identifier) && inp.is(p + 1, TokenType::Accessor) {
        match expression(inp, p + 2) {
            Parsed::Fault { fault } => Parsed::Fault { fault },
            Parsed::NoMatch => Parsed::Fault {
                fault: inp.fault(
                    p + 2,
                    "An expression was expected here."@,
                    "Expected an expression to follow a property member."@,
                ),
            },
            Parsed::Match { value, rest } => Parsed::Match {
                value: MemberListNodeView {
                    name: Box::new(value),
                    origin: inp.tokens[p],
                    lookup: lookup_at(inp, p + 1),
                },
                rest: 2 + rest,
            },
        }
    } else {
        Parsed::NoMatch
    }
}

/// `new := "new" IDENT "(" (expression ","?)* ")"`.
pub open spec fn new_call(inp: Input, p: int) -> Parsed<NewCallView>
    decreases inp.left(p), 1nat,
{
    if !inp.is_keyword(p, KeyWord::New) {
        Parsed::NoMatch
    } else {
        let q = inp.skip(p + 1);
        if !inp.is(q, TokenType::Identifier) {
            Parsed::Fault {
                fault: inp.fault(
                    q,
                    "A name was expected here."@,
                    "Expected a name to follow a new expression."@,
                ),
            }
        } else {
            match call_inputs(inp, q) {
                Parsed::Fault { fault } => Parsed::Fault { fault },
                Parsed::NoMatch => Parsed::Fault {
                    fault: inp.fault(
                        q,
                        "Function inputs expected here."@,
                        "Expected a function call inputs to follow a new expression."@,
                    ),
                },
                Parsed::Match { value, rest } => Parsed::Match {
                    value: NewCallView { name: inp.text(q), arguments: value },
                    rest: (q + rest - p) as nat,
                },
            }
        }
    }
}

/// `array := "[" (expression ","?)* "]"`.
pub open spec fn array(inp: Input, p: int) -> Parsed<ArrayView>
    decreases inp.left(p), 1nat,
{
    if !inp.is(p, TokenType::LeftBracket) {
        Parsed::NoMatch
    } else {
        match array_items(inp, p + 1, Seq::empty()) {
            Listed::Fault { fault } => Parsed::Fault { fault },
            Listed::Done { values, end } => Parsed::Match {
                value: ArrayView { values, ty: None },
                rest: (end - p - 1) as nat,
            },
        }
    }
}

/// The elements of an array from `q` to the closing bracket, after the
/// elements `acc`. An array that the input ends in is a fault.
pub open spec fn array_items(inp: Input, q: int, acc: Seq<ExpressionView>) -> Listed<
    Seq<ExpressionView>,
>
    decreases inp.left(q), 6nat,
{
    if inp.runs_out(q) {
        Listed::Fault { fault: inp.exhausted(q, "Array's must be closed."@) }
    } else {
        let q1 = inp.skip(q);
        match expression(inp, q1) {
            Parsed::Fault { fault } => Listed::Fault { fault },
            Parsed::Match { value, rest } => {
                let q2 = q1 + 1 + rest;
                if inp.runs_out(q2) {
                    Listed::Fault { fault: inp.exhausted(q2, "Array's must be closed."@) }
                } else {
                    let q3 = inp.skip(q2);
                    if inp.is(q3, TokenType::Comma) {
                        array_items(inp, q3 + 1, acc.push(value))
                    } else if inp.is(q3, TokenType::RightBracket) {
                        Listed::Done { values: acc.push(value), end: q3 + 1 }
                    } else {
                        Listed::Fault {
                            fault: inp.fault(
                                q3,
                                "A comma is expected here."@,
                                "A comma is required to seperate array elements."@,
                            ),
                        }
                    }
                }
            },
            Parsed::NoMatch => {
                if inp.is(q1, TokenType::RightBracket) {
                    Listed::Done { values: acc, end: q1 + 1 }
                } else {
                    Listed::Fault {
                        fault: inp.fault(
                            q1,
                            "Unexpected Token: "@ + inp.kind_name(q1),
                            "Expected an expression to follow an array element."@,
                        ),
                    }
                }
            },
        }
    }
}

/// `object := "{" (IDENT ":" expression ","?)* "}"`.
pub open spec fn object(inp: Input, p: int) -> Parsed<ObjectView>
    decreases inp.left(p), 1nat,
{
    if !inp.is(p, TokenType::LeftBrace) {
        Parsed::NoMatch
    } else {
        match object_items(inp, p + 1, Seq::empty()) {
            Listed::Fault { fault } => Parsed::Fault { fault },
            Listed::Done { values, end } => Parsed::Match {
                value: ObjectView { properties: values, ty: None },
                rest: (end - p - 1) as nat,
            },
        }
    }
}

/// The properties of an object from `q` to the closing brace, after the
/// properties `acc`.
pub open spec fn object_items(inp: Input, q: int, acc: Seq<ObjectPropertyView>) -> Listed<
    Seq<ObjectPropertyView>,
>
    decreases inp.left(q), 6nat,
{
    if inp.runs_out(q) {
        Listed::Fault { fault: inp.exhausted(q, "Object body must be closed."@) }
    } else {
        let q1 = inp.skip(q);
        if inp.is(q1, TokenType::Identifier) {
            if !inp.is(q1 + 1, TokenType::Colon) {
                Listed::Fault {
                    fault: inp.fault(
                        q1 + 1,
                        "Unexpected Token: "@ + inp.kind_name(q1 + 1),
                        "Expected a colon to follow a property name."@,
                    ),
                }
            } else if inp.runs_out(q1 + 2) {
                Listed::Fault { fault: inp.exhausted(q1 + 2, "Object body must be closed."@) }
            } else {
                let q2 = inp.skip(q1 + 2);
                match expression(inp, q2) {
                    Parsed::Fault { fault } => Listed::Fault { fault },
                    Parsed::NoMatch => Listed::Fault {
                        fault: inp.fault(
                            q2,
                            "An expression was expected here."@,
                            "Expected an expression to follow a property."@,
                        ),
                    },
                    Parsed::Match { value, rest } => {
                        let q3 = q2 + 1 + rest;
                        let property = ObjectPropertyView { name: inp.text(q1), value };
                        if inp.is(q3, TokenType::Comma) {
                            object_items(inp, q3 + 1, acc.push(property))
                        } else if inp.runs_out(q3) {
                            Listed::Fault {
                                fault: inp.exhausted(q3, "Object body must be closed."@),
                            }
                        } else {
                            let q4 = inp.skip(q3);
                            if inp.is(q4, TokenType::RightBrace) {
                                Listed::Done { values: acc.push(property), end: q4 + 1 }
                            } else {
                                Listed::Fault {
                                    fault: inp.fault(
                                        q4,
                                        "A right brace was expected here."@,
                                        "Expected a right brace to close an object body."@,
                                    ),
                                }
                            }
                        }
                    },
                }
            }
        } else if inp.is(q1, TokenType::RightBrace) {
            Listed::Done { values: acc, end: q1 + 1 }
        } else {
            Listed::Fault {
                fault: inp.fault(
                    q1,
                    "An object property was expected here."@,
                    "Expected an object property to follow an object element."@,
                ),
            }
        }
    }
}


// ---------------------------------------------------------------------------
// Statements
// ---------------------------------------------------------------------------
/// `statement := namespace | static | variable | function | class`, tried in
/// that order.
pub open spec fn statement(inp: Input, p: int) -> Parsed<StatementView>
    decreases inp.left(p), 3nat,
{
    match namespace(inp, p) {
        Parsed::Fault { fault } => Parsed::Fault { fault },
        Parsed::Match { value, rest } => Parsed::Match {
            value: StatementView::Namespace(value),
            rest,
        },
        Parsed::NoMatch => match static_statement(inp, p) {
            Parsed::Fault { fault } => Parsed::Fault { fault },
            Parsed::Match { value, rest } => Parsed::Match { value, rest },
            Parsed::NoMatch => match variable(inp, p) {
                Parsed::Fault { fault } => Parsed::Fault { fault },
                Parsed::Match { value, rest } => Parsed::Match {
                    value: if value.1 {
                        StatementView::Const(value.0)
                    } else {
                        StatementView::Var(value.0)
                    },
                    rest,
                },
                Parsed::NoMatch => match function(inp, p) {
                    Parsed::Fault { fault } => Parsed::Fault { fault },
                    Parsed::Match { value, rest } => Parsed::Match {
                        value: StatementView::Function(value),
                        rest,
                    },
                    Parsed::NoMatch => match class(inp, p) {
                        Parsed::Fault { fault } => Parsed::Fault { fault },
                        Parsed::Match { value, rest } => Parsed::Match {
                            value: StatementView::Class(value),
                            rest,
                        },
                        Parsed::NoMatch => Parsed::NoMatch,
                    },
                },
            },
        },
    }
}

/// `namespace := "namespace" IDENT ("\" IDENT)* ( ";" | block ";" )`.
pub open spec fn namespace(inp: Input, p: int) -> Parsed<NamespaceView>
    decreases inp.left(p), 1nat,
{
    if !inp.is_keyword(p, KeyWord::Namespace) {
        Parsed::NoMatch
    } else {
        let q = inp.skip(p + 1);
        if !inp.is(q, TokenType::Identifier) {
            Parsed::Fault {
                fault: inp.fault_from(
                    p + 1,
                    q,
                    "Expected a namespace name."@,
                    "A namespace must always contain a path. A path is a series of identifiers seperated by backslashes."@,
                    None,
                ),
            }
        } else {
            match namespace_tail(inp, p + 1, q + 1, inp.text(q), Seq::empty()) {
                Listed::Fault { fault } => Parsed::Fault { fault },
                Listed::Done { values, end } => Parsed::Match {
                    value: values,
                    rest: (end - p - 1) as nat,
                },
            }
        }
    }
}

/// What follows the first name of a namespace from `q` on: further parts of
/// the path, after the parts `parts`, and then a semicolon, or a block and
/// a semicolon. Faults of the path reach back to the token at `from`.
pub open spec fn namespace_tail(
    inp: Input,
    from: int,
    q: int,
    name: Seq<char>,
    parts: Seq<Seq<char>>,
) -> Listed<NamespaceView>
    decreases inp.left(q), 6nat,
{
    let q1 = inp.skip(q);
    if inp.is(q1, TokenType::Backslash) {
        if inp.is(q1 + 1, TokenType::Identifier) {
            namespace_tail(inp, from, q1 + 2, name, parts.push(inp.text(q1 + 1)))
        } else {
            Listed::Fault {
                fault: inp.fault_from(
                    from,
                    q1 + 1,
                    "Expected identifier after backslash."@,
                    "Namespace sub-directories must always contain a valid identifier. A valid identifier is an expression that contains a letter, number preceeding any letter, or an underscore."@,
                    None,
                ),
            }
        }
    } else if inp.is(q1, TokenType::LeftBrace) {
        match block(inp, q1) {
            Parsed::Fault { fault } => Listed::Fault { fault },
            Parsed::NoMatch => Listed::Fault {
                fault: inp.fault(
                    q1,
                    "Expected block after namespace with opening brace."@,
                    "A statement block must always have an end. Identify the end with a curly brace }."@,
                ),
            },
            Parsed::Match { value, rest } => {
                let q2 = inp.skip(q1 + 1 + rest);
                if inp.is(q2, TokenType::StatementEnd) {
                    Listed::Done {
                        values: NamespaceView {
                            path: Path::flat(name, parts),
                            body: Some(Box::new(StatementView::Block(value))),
                        },
                        end: q2 + 1,
                    }
                } else {
                    Listed::Fault {
                        fault: inp.fault(
                            q2,
                            "A semi-colon was expected."@,
                            "If a namespace is opening a block, it must always end with a semicolon to identify the end of the namespace."@,
                        ),
                    }
                }
            },
        }
    } else if inp.is(q1, TokenType::StatementEnd) {
        Listed::Done {
            values: NamespaceView { path: Path::flat(name, parts), body: None },
            end: q1 + 1,
        }
    } else {
        Listed::Fault {
            fault: inp.fault_from(
                from,
                q1,
                "Unable to parse namespace path."@,
                "This statement is incomplete. A valid namespace statement contains the namespace keyword followed by a path preceeded with a backslash. A path is a series of identifiers seperated by backslashes."@,
                Some("Unexpected token: "@ + inp.kind_name(q1)),
            ),
        }
    }
}

/// `block := "{" (expression | ";" | "return" expression? ";")* "}"`.
pub open spec fn block(inp: Input, p: int) -> Parsed<Seq<ExpressionView>>
    decreases inp.left(p), 1nat,
{
    if !inp.is(p, TokenType::LeftBrace) {
        Parsed::NoMatch
    } else {
        match block_items(inp, p + 1, Seq::empty()) {
            Listed::Fault { fault } => Parsed::Fault { fault },
            Listed::Done { values, end } => Parsed::Match { value: values, rest: (end - p - 1) as nat },
        }
    }
}

/// The expression that a `return` of `value` is.
pub open spec fn return_of(value: ExpressionView) -> ExpressionView {
    ExpressionView::Statement(
        Box::new(StatementView::Return(ReturnView { expression: Some(value) })),
    )
}

/// The items of a block from `q` to the closing brace, after the items
/// `acc`. A semicolon of its own is the item `EndOfLine`; a `return` adds
/// the value it returns, if it returns one.
pub open spec fn block_items(inp: Input, q: int, acc: Seq<ExpressionView>) -> Listed<
    Seq<ExpressionView>,
>
    decreases inp.left(q), 6nat,
{
    if inp.runs_out(q) {
        Listed::Fault { fault: inp.exhausted(q, "Expected a statement to follow a block."@) }
    } else {
        let q1 = inp.skip(q);
        match expression(inp, q1) {
            Parsed::Fault { fault } => Listed::Fault { fault },
            Parsed::Match { value, rest } => block_items(inp, q1 + 1 + rest, acc.push(value)),
            Parsed::NoMatch => {
                if inp.is(q1, TokenType::RightBrace) {
                    Listed::Done { values: acc, end: q1 + 1 }
                } else if inp.is(q1, TokenType::StatementEnd) {
                    block_items(inp, q1 + 1, acc.push(ExpressionView::EndOfLine))
                } else if inp.is_keyword(q1, KeyWord::Return) {
                    let q2 = inp.skip(q1 + 1);
                    match expression(inp, q2) {
                        Parsed::Fault { fault } => Listed::Fault { fault },
                        Parsed::Match { value, rest } => {
                            let q3 = q2 + 1 + rest;
                            if inp.is(q3, TokenType::StatementEnd) {
                                block_items(inp, q3 + 1, acc.push(return_of(value)))
                            } else {
                                Listed::Fault {
                                    fault: inp.fault(
                                        q3,
                                        "Expected an expression here."@,
                                        "Expected an expression to follow a return statement."@,
                                    ),
                                }
                            }
                        },
                        Parsed::NoMatch => {
                            if inp.is(q2, TokenType::StatementEnd) {
                                block_items(inp, q2 + 1, acc)
                            } else {
                                Listed::Fault {
                                    fault: inp.fault(
                                        q2,
                                        "Expected an expression here."@,
                                        "Expected an expression to follow a return statement."@,
                                    ),
                                }
                            }
                        },
                    }
                } else {
                    Listed::Fault {
                        fault: inp.fault(
                            q1,
                            "A statement is expected here."@,
                            "Expected a statement to follow a block."@,
                        ),
                    }
                }
            },
        }
    }
}

/// `visibility := "pub" | "priv" | "prot"`, with the whitespace that follows.
/// The input may not end behind the modifier.
pub open spec fn visibility(inp: Input, p: int) -> Parsed<Visibility> {
    if !inp.is_visibility(p) {
        Parsed::NoMatch
    } else if inp.runs_out(p + 1) {
        Parsed::Fault {
            fault: inp.exhausted(
                p + 1,
                "A statement or static keyword was expected after a visibility modifier but none was found."@,
            ),
        }
    } else {
        Parsed::Match { value: inp.visibility_at(p), rest: inp.blanks(p + 1) }
    }
}

/// Where the keyword of a declaration stands that may follow a visibility
/// modifier: at `p`, or behind the modifier at `p` and the whitespace after
/// it.
pub open spec fn behind_visibility(inp: Input, p: int) -> int {
    if inp.is_visibility(p) {
        inp.skip(p + 1)
    } else {
        p
    }
}

/// The visibility that a declaration at `p` is given: that of the modifier
/// at `p`, or `otherwise` where none stands there.
pub open spec fn visibility_or(inp: Input, p: int, otherwise: Visibility) -> Visibility {
    if inp.is_visibility(p) {
        inp.visibility_at(p)
    } else {
        otherwise
    }
}

/// `static := visibility? "static" statement`. Without a modifier the
/// statement is private.
pub open spec fn static_statement(inp: Input, p: int) -> Parsed<StatementView>
    decreases inp.left(p), 1nat,
{
    let k = behind_visibility(inp, p);
    if !inp.is_keyword(k, KeyWord::Static) {
        Parsed::NoMatch
    } else {
        let q = inp.skip(k + 1);
        match statement(inp, q) {
            Parsed::Fault { fault } => Parsed::Fault { fault },
            Parsed::NoMatch => Parsed::Fault {
                fault: inp.fault(
                    q,
                    "A statement was expected here."@,
                    "Expected a statement after a static keyword, but found none."@,
                ),
            },
            Parsed::Match { value, rest } => Parsed::Match {
                value: StatementView::Static(
                    StaticView {
                        visibility: visibility_or(inp, p, Visibility::Private),
                        statement: Box::new(value),
                    },
                ),
                rest: (q + rest - p) as nat,
            },
        }
    }
}

/// `variable := visibility? ("var" | "const") IDENT (":" type)? ("=" expression)? ";"`.
/// The truth value tells whether the binding is a constant.
pub open spec fn variable(inp: Input, p: int) -> Parsed<(VariableView, bool)>
    decreases inp.left(p), 1nat,
{
    let k = behind_visibility(inp, p);
    if !(inp.is_keyword(k, KeyWord::Var) || inp.is_keyword(k, KeyWord::Const)) {
        Parsed::NoMatch
    } else if inp.runs_out(k + 1) {
        Parsed::Fault {
            fault: inp.exhausted(k + 1, "A variable name was expected but none was found."@),
        }
    } else {
        let q = inp.skip(k + 1);
        if !inp.is(q, TokenType::Identifier) {
            Parsed::Fault {
                fault: inp.fault(
                    q,
                    "Unexpected token: \""@ + inp.kind_name(q) + "\""@,
                    "A name must follow a variable declaration"@,
                ),
            }
        } else {
            let q1 = inp.skip(q + 1);
            if inp.is(q1, TokenType::Colon) {
                let q2 = inp.skip(q1 + 1);
                match type_kind(inp, q2) {
                    Parsed::Fault { fault } => Parsed::Fault { fault },
                    Parsed::NoMatch => Parsed::Fault {
                        fault: inp.fault(
                            q2,
                            "A type statement is expected here."@,
                            "Expected type statement to follow a variable declaration with a colon."@,
                        ),
                    },
                    Parsed::Match { value, rest } => variable_value(
                        inp,
                        p,
                        q2 + 1 + rest,
                        inp.is_keyword(k, KeyWord::Const),
                        inp.text(q),
                        Some(value),
                    ),
                }
            } else {
                variable_value(inp, p, q1, inp.is_keyword(k, KeyWord::Const), inp.text(q), None)
            }
        }
    }
}

/// What follows the name and the type of the variable that begins at `p`,
/// from `q` on: an initial value and a semicolon, or a semicolon alone.
pub open spec fn variable_value(
    inp: Input,
    p: int,
    q: int,
    constant: bool,
    name: Seq<char>,
    ty: Option<TypeKindView>,
) -> Parsed<(VariableView, bool)>
    decreases inp.left(q), 6nat,
{
    if inp.runs_out(q) {
        Parsed::Fault { fault: inp.exhausted(q, "An operator was expected but none was found."@) }
    } else {
        let q4 = inp.skip(q);
        let visibility = visibility_or(inp, p, Visibility::Private);
        if inp.is_operator(q4, "="@) {
            if inp.runs_out(q4 + 1) {
                Parsed::Fault {
                    fault: inp.exhausted(q4 + 1, "An expression was expected but none was found."@),
                }
            } else {
                let q5 = inp.skip(q4 + 1);
                match expression(inp, q5) {
                    Parsed::Fault { fault } => Parsed::Fault { fault },
                    Parsed::NoMatch => Parsed::Fault {
                        fault: inp.fault(
                            q5,
                            "An expression is expected here."@,
                            "Expected an expression to follow a variable declaration."@,
                        ),
                    },
                    Parsed::Match { value, rest } => {
                        let q6 = q5 + 1 + rest;
                        if inp.runs_out(q6) {
                            Parsed::Fault {
                                fault: inp.exhausted(
                                    q6,
                                    "A semicolon was expected but none was found."@,
                                ),
                            }
                        } else {
                            let q7 = inp.skip(q6);
                            if inp.is(q7, TokenType::StatementEnd) {
                                Parsed::Match {
                                    value: (
                                        VariableView {
                                            name,
                                            node_id: 0,
                                            ty,
                                            visibility,
                                            assignment: Some(value),
                                        },
                                        constant,
                                    ),
                                    rest: (q7 - p) as nat,
                                }
                            } else {
                                Parsed::Fault {
                                    fault: inp.fault(
                                        q7,
                                        "A semicolon is expected here."@,
                                        "Expected a semicolon to follow a variable declaration."@,
                                    ),
                                }
                            }
                        }
                    },
                }
            }
        } else if inp.is(q4, TokenType::StatementEnd) {
            Parsed::Match {
                value: (
                    VariableView { name, node_id: 0, ty, visibility, assignment: None },
                    constant,
                ),
                rest: (q4 - p) as nat,
            }
        } else {
            Parsed::Fault {
                fault: inp.fault(
                    q4,
                    "A semi-colon is expected here."@,
                    "Expected an end of statement to follow an uninitialized declaration."@,
                ),
            }
        }
    }
}


/// `function := "function" visibility? IDENT? inputs block`. Without a
/// modifier the function is public.
pub open spec fn function(inp: Input, p: int) -> Parsed<FunctionView>
    decreases inp.left(p), 1nat,
{
    if !inp.is_keyword(p, KeyWord::Function) {
        Parsed::NoMatch
    } else {
        function_rest(inp, p)
    }
}

/// The function whose keyword stands at `p`.
pub open spec fn function_rest(inp: Input, p: int) -> Parsed<FunctionView>
    decreases inp.left(p), 0nat,
{
    if !inp.has(p) {
        Parsed::NoMatch
    } else if inp.runs_out(p + 1) {
        Parsed::Fault {
            fault: inp.exhausted(
                p + 1,
                "A function input list was expected but none was found."@,
            ),
        }
    } else {
        let q = inp.skip(p + 1);
        if let Parsed::Fault { fault } = visibility(inp, q) {
            Parsed::Fault { fault }
        } else {
            let q1 = behind_visibility(inp, q);
            let q2 = if inp.is(q1, TokenType::Identifier) {
                q1 + 1
            } else {
                q1
            };
            let name = if inp.is(q1, TokenType::Identifier) {
                Some(inp.text(q1))
            } else {
                None
            };
            if inp.runs_out(q2) {
                Parsed::Fault {
                    fault: inp.exhausted(
                        q2,
                        "A function input list was expected but none was found."@,
                    ),
                }
            } else {
                let q3 = inp.skip(q2);
                match function_inputs(inp, q3) {
                    Parsed::Fault { fault } => Parsed::Fault { fault },
                    Parsed::NoMatch => Parsed::Fault {
                        fault: inp.fault(
                            q3,
                            "A function input list is expected here."@,
                            "Expected a function input list to follow a function declaration."@,
                        ),
                    },
                    Parsed::Match { value, rest } => {
                        let q4 = q3 + 1 + rest;
                        if inp.runs_out(q4) {
                            Parsed::Fault {
                                fault: inp.exhausted(
                                    q4,
                                    "A block was expected but none was found."@,
                                ),
                            }
                        } else {
                            let q5 = inp.skip(q4);
                            match block(inp, q5) {
                                Parsed::Fault { fault } => Parsed::Fault { fault },
                                Parsed::NoMatch => Parsed::Fault {
                                    fault: inp.fault(
                                        q5,
                                        "A block is expected here."@,
                                        "Expected a block to follow a function declaration."@,
                                    ),
                                },
                                Parsed::Match { value: items, rest: r } => Parsed::Match {
                                    value: FunctionView {
                                        name,
                                        inputs: value.0,
                                        body: Box::new(StatementView::Block(items)),
                                        outputs: value.1,
                                        visibility: visibility_or(inp, q, Visibility::Public),
                                        node_id: 0,
                                    },
                                    rest: (q5 + r - p) as nat,
                                },
                            }
                        }
                    },
                }
            }
        }
    }
}

/// `inputs := "(" (IDENT ":" type ","?)* ")" (":" type)?`: the parameters
/// of a function and its return type.
#[verifier::opaque]
pub open spec fn function_inputs(inp: Input, p: int) -> Parsed<
    (Seq<FunctionInputView>, Option<TypeKindView>),
> {
    if !inp.is(p, TokenType::LeftParenthesis) {
        Parsed::NoMatch
    } else {
        match input_items(inp, p + 1, Seq::empty()) {
            Listed::Fault { fault } => Parsed::Fault { fault },
            Listed::Done { values, end } => {
                let q = inp.skip(end);
                if !inp.is(q, TokenType::Colon) {
                    Parsed::Match { value: (values, None), rest: (q - p - 1) as nat }
                } else if inp.runs_out(q + 1) {
                    Parsed::Fault {
                        fault: inp.exhausted(
                            q + 1,
                            "Expected a return type statement after a function declaration."@,
                        ),
                    }
                } else {
                    let q1 = inp.skip(q + 1);
                    match type_kind(inp, q1) {
                        Parsed::Fault { fault } => Parsed::Fault { fault },
                        Parsed::NoMatch => Parsed::Fault {
                            fault: inp.fault(
                                q1,
                                "Expected a return type statement to follow a function declaration."@,
                                "A return type is expected here."@,
                            ),
                        },
                        Parsed::Match { value, rest } => Parsed::Match {
                            value: (values, Some(value)),
                            rest: (q1 + rest - p) as nat,
                        },
                    }
                }
            },
        }
    }
}

/// The parameters of a function from `q` to the closing parenthesis, after
/// the parameters `acc`.
#[verifier::opaque]
pub open spec fn input_items(inp: Input, q: int, acc: Seq<FunctionInputView>) -> Listed<
    Seq<FunctionInputView>,
>
    decreases inp.left(q),
{
    if inp.runs_out(q) {
        Listed::Fault {
            fault: inp.exhausted(q, "Function declaration arguments must be closed."@),
        }
    } else {
        let q1 = inp.skip(q);
        if inp.is(q1, TokenType::RightParenthesis) {
            Listed::Done { values: acc, end: q1 + 1 }
        } else if !inp.is(q1, TokenType::Identifier) {
            Listed::Fault {
                fault: inp.fault(
                    q1,
                    "A name is expected here."@,
                    "Expected a function parameter name but none was found."@,
                ),
            }
        } else if inp.runs_out(q1 + 1) {
            Listed::Fault {
                fault: inp.exhausted(
                    q1 + 1,
                    "Expected a type statement after a function argument declaration."@,
                ),
            }
        } else {
            let q2 = inp.skip(q1 + 1);
            if !inp.is(q2, TokenType::Colon) {
                Listed::Fault {
                    fault: inp.fault(
                        q2,
                        "A type statement is expected here."@,
                        "Expected a type statement to follow a function declaration argument."@,
                    ),
                }
            } else {
                let q3 = inp.skip(q2 + 1);
                match type_kind(inp, q3) {
                    Parsed::Fault { fault } => Listed::Fault { fault },
                    Parsed::NoMatch => Listed::Fault {
                        fault: inp.fault(
                            q3,
                            "A type statement is expected here."@,
                            "Expected a type statement to follow a function declaration argument."@,
                        ),
                    },
                    Parsed::Match { value, rest } => {
                        let q4 = q3 + 1 + rest;
                        let input = FunctionInputView { name: inp.text(q1), ty: Some(value) };
                        if inp.runs_out(q4) {
                            Listed::Fault {
                                fault: inp.exhausted(
                                    q4,
                                    "A comma was expected but none was found."@,
                                ),
                            }
                        } else {
                            let q5 = inp.skip(q4);
                            if inp.is(q5, TokenType::Comma) {
                                input_items(inp, q5 + 1, acc.push(input))
                            } else if inp.is(q5, TokenType::RightParenthesis) {
                                Listed::Done { values: acc.push(input), end: q5 + 1 }
                            } else {
                                Listed::Fault {
                                    fault: inp.fault(
                                        q5,
                                        "A right parenthesis is expected here."@,
                                        "Expected a right parenthesis to follow a function argument declaration."@,
                                    ),
                                }
                            }
                        }
                    },
                }
            }
        }
    }
}

/// `class := "class" IDENT ("extends" IDENT)? ("implements" IDENT ("," IDENT)*)? body?`.
/// A class without a body has no members.
pub open spec fn class(inp: Input, p: int) -> Parsed<ClassView>
    decreases inp.left(p), 1nat,
{
    if !inp.is_keyword(p, KeyWord::Class) {
        Parsed::NoMatch
    } else {
        let q = inp.skip(p + 1);
        if !inp.is(q, TokenType::Identifier) {
            Parsed::Fault {
                fault: inp.fault(
                    q,
                    "Unexpected token: "@ + inp.kind_name(q),
                    "Expected a class name but none was found."@,
                ),
            }
        } else {
            let q1 = inp.skip(q + 1);
            match class_extension(inp, q1) {
                Parsed::Fault { fault } => Parsed::Fault { fault },
                extension => {
                    let q2 = inp.skip(after(q1, extension));
                    match class_implementation(inp, q2) {
                        Parsed::Fault { fault } => Parsed::Fault { fault },
                        implementation => {
                            let q3 = after(q2, implementation);
                            match class_body(inp, q3) {
                                Parsed::Fault { fault } => Parsed::Fault { fault },
                                body => Parsed::Match {
                                    value: ClassView {
                                        name: inp.text(q),
                                        extends: found(extension),
                                        implements: found(implementation),
                                        body: match body {
                                            Parsed::Match { value, rest } => value,
                                            _ => ClassBodyView {
                                                properties: Seq::empty(),
                                                methods: Seq::empty(),
                                                other: Seq::empty(),
                                            },
                                        },
                                        node_id: inp.class_id,
                                    },
                                    rest: (after(q3, body) - p - 1) as nat,
                                },
                            }
                        },
                    }
                },
            }
        }
    }
}

/// The place behind what a production found at `p`: behind the construct
/// where it matched, `p` itself where it did not.
pub open spec fn after<T>(p: int, found: Parsed<T>) -> int {
    match found {
        Parsed::Match { value, rest } => p + 1 + rest,
        _ => p,
    }
}

/// What a production found, if it matched.
pub open spec fn found<T>(found: Parsed<T>) -> Option<T> {
    match found {
        Parsed::Match { value, rest } => Some(value),
        _ => None,
    }
}

/// `"extends" IDENT`: the name of the superclass.
#[verifier::opaque]
pub open spec fn class_extension(inp: Input, p: int) -> Parsed<Seq<char>> {
    if !inp.is_keyword(p, KeyWord::Extends) {
        Parsed::NoMatch
    } else {
        let q = inp.skip(p + 1);
        if inp.is(q, TokenType::Identifier) {
            Parsed::Match { value: inp.text(q), rest: (q - p) as nat }
        } else {
            Parsed::Fault {
                fault: inp.fault(
                    q,
                    "Unexpected token: "@ + inp.kind_name(q),
                    "Expected a class name to extend but none was found."@,
                ),
            }
        }
    }
}

/// `"implements" IDENT ("," IDENT)*`: the names of the interfaces, with the
/// whitespace that follows. The input may not end behind the list.
#[verifier::opaque]
pub open spec fn class_implementation(inp: Input, p: int) -> Parsed<Seq<Seq<char>>> {
    if !inp.is_keyword(p, KeyWord::Implements) {
        Parsed::NoMatch
    } else {
        let q = inp.skip(p + 1);
        if inp.is(q, TokenType::Identifier) {
            match implement_items(inp, q + 1, seq![inp.text(q)]) {
                Listed::Fault { fault } => Parsed::Fault { fault },
                Listed::Done { values, end } => Parsed::Match {
                    value: values,
                    rest: (end - p - 1) as nat,
                },
            }
        } else {
            Parsed::Fault {
                fault: inp.fault(
                    q,
                    "Expected a class name to implement but none was found."@,
                    "Unexpected token: "@ + inp.kind_name(q),
                ),
            }
        }
    }
}

/// The further names of a list of interfaces from `q` on, after the names
/// `acc`.
#[verifier::opaque]
pub open spec fn implement_items(inp: Input, q: int, acc: Seq<Seq<char>>) -> Listed<
    Seq<Seq<char>>,
>
    decreases inp.left(q),
{
    let q1 = inp.skip(q);
    if inp.is(q1, TokenType::Comma) {
        let q2 = inp.skip(q1 + 1);
        if inp.is(q2, TokenType::Identifier) {
            implement_items(inp, q2 + 1, acc.push(inp.text(q2)))
        } else {
            Listed::Fault {
                fault: inp.fault(
                    q2,
                    "Unexpected token: "@ + inp.kind_name(q2),
                    "Expected a class name to extend but none was found."@,
                ),
            }
        }
    } else if inp.has(q1) {
        Listed::Done { values: acc, end: q1 }
    } else {
        Listed::Fault {
            fault: inp.fault(
                q1,
                "Unexpected token: "@ + inp.kind_name(q1),
                "Expected a class name or interface to implement but none was found."@,
            ),
        }
    }
}

/// `body := "{" member* "}"`, where a member is a property, a method, or a
/// statement that a class allows besides.
#[verifier::opaque]
pub open spec fn class_body(inp: Input, p: int) -> Parsed<ClassBodyView>
    decreases inp.left(p), 1nat,
{
    if !inp.is(p, TokenType::LeftBrace) {
        Parsed::NoMatch
    } else {
        match class_items(
            inp,
            p + 1,
            ClassBodyView { properties: Seq::empty(), methods: Seq::empty(), other: Seq::empty() },
        ) {
            Listed::Fault { fault } => Parsed::Fault { fault },
            Listed::Done { values, end } => Parsed::Match { value: values, rest: (end - p - 1) as nat },
        }
    }
}

/// The members of a class from `q` to the closing brace, added to `body`.
/// Each member is tried as a private property, then as a method, then as a
/// statement that a class allows besides.
#[verifier::opaque]
pub open spec fn class_items(inp: Input, q: int, body: ClassBodyView) -> Listed<ClassBodyView>
    decreases inp.left(q), 6nat,
{
    if inp.runs_out(q) {
        Listed::Fault {
            fault: inp.exhausted(
                q,
                "Expected a right brace to close the class body, found none."@,
            ),
        }
    } else {
        let q1 = inp.skip(q);
        if inp.is(q1, TokenType::RightBrace) {
            Listed::Done { values: body, end: q1 + 1 }
        } else {
            match class_property(inp, q1, Visibility::Private) {
                Parsed::Fault { fault } => Listed::Fault { fault },
                Parsed::Match { value, rest } => class_items(
                    inp,
                    q1 + 1 + rest,
                    ClassBodyView { properties: body.properties.push(value), ..body },
                ),
                Parsed::NoMatch => match function(inp, q1) {
                    Parsed::Fault { fault } => Listed::Fault { fault },
                    Parsed::Match { value, rest } => class_items(
                        inp,
                        q1 + 1 + rest,
                        ClassBodyView { methods: body.methods.push(value), ..body },
                    ),
                    Parsed::NoMatch => match class_allowed_statement(inp, q1) {
                        Parsed::Fault { fault } => Listed::Fault { fault },
                        Parsed::Match { value, rest } => class_items(
                            inp,
                            q1 + 1 + rest,
                            ClassBodyView { other: body.other.push(value), ..body },
                        ),
                        Parsed::NoMatch => Listed::Fault {
                            fault: inp.fault(
                                q1,
                                "Unexpected token: \""@ + inp.kind_name(q1)
                                    + "\" inside class body."@,
                                "Classes must contain a property, method, import or macro."@,
                            ),
                        },
                    },
                },
            }
        }
    }
}

/// `property := IDENT (":" type)? ("=" expression)? ";"`, with the
/// visibility `visibility`.
pub open spec fn class_property(inp: Input, p: int, visibility: Visibility) -> Parsed<
    ClassPropertyView,
>
    decreases inp.left(p), 1nat,
{
    if !inp.is(p, TokenType::Identifier) {
        Parsed::NoMatch
    } else {
        property_rest(inp, p, visibility)
    }
}

/// The property whose name stands at `p`.
pub open spec fn property_rest(inp: Input, p: int, visibility: Visibility) -> Parsed<
    ClassPropertyView,
>
    decreases inp.left(p), 0nat,
{
    if !inp.has(p) {
        Parsed::NoMatch
    } else {
        let q1 = inp.skip(p + 1);
        if inp.is(q1, TokenType::Colon) {
            let q2 = inp.skip(q1 + 1);
            match type_kind(inp, q2) {
                Parsed::Fault { fault } => Parsed::Fault { fault },
                Parsed::NoMatch => Parsed::Fault {
                    fault: inp.fault(
                        q2,
                        "A type statement is expected here."@,
                        "Expected a type statement to follow a property declaration."@,
                    ),
                },
                Parsed::Match { value, rest } => property_value(
                    inp,
                    p,
                    q2 + 1 + rest,
                    inp.text(p),
                    visibility,
                    Some(value),
                ),
            }
        } else {
            property_value(inp, p, q1, inp.text(p), visibility, None)
        }
    }
}

/// What follows the name and the type of the property `name` that begins
/// at `p`, from `q` on: an initial value and a semicolon, or a semicolon
/// alone.
pub open spec fn property_value(
    inp: Input,
    p: int,
    q: int,
    name: Seq<char>,
    visibility: Visibility,
    ty: Option<TypeKindView>,
) -> Parsed<ClassPropertyView>
    decreases inp.left(q), 6nat,
{
    if inp.is_operator(q, "="@) {
        if inp.runs_out(q + 1) {
            Parsed::Fault {
                fault: inp.exhausted(q + 1, "An expression was expected but none was found."@),
            }
        } else {
            let q4 = inp.skip(q + 1);
            match expression(inp, q4) {
                Parsed::Fault { fault } => Parsed::Fault { fault },
                Parsed::NoMatch => Parsed::Fault {
                    fault: inp.fault(
                        q4,
                        "An expression is expected here."@,
                        "Expected an expression to follow a variable declaration."@,
                    ),
                },
                Parsed::Match { value, rest } => {
                    let q5 = q4 + 1 + rest;
                    if inp.runs_out(q5) {
                        Parsed::Fault {
                            fault: inp.exhausted(
                                q5,
                                "A semicolon was expected but none was found."@,
                            ),
                        }
                    } else {
                        let q6 = inp.skip(q5);
                        if inp.is(q6, TokenType::StatementEnd) {
                            Parsed::Match {
                                value: ClassPropertyView {
                                    name,
                                    visibility,
                                    ty,
                                    assignment: Some(value),
                                },
                                rest: (q6 - p) as nat,
                            }
                        } else {
                            Parsed::Fault {
                                fault: inp.fault(
                                    q6,
                                    "Expected a semicolon to follow a variable declaration."@,
                                    "A semicolon is expected here."@,
                                ),
                            }
                        }
                    }
                },
            }
        }
    } else if inp.is(q, TokenType::StatementEnd) {
        Parsed::Match {
            value: ClassPropertyView { name, visibility, ty, assignment: None },
            rest: (q - p) as nat,
        }
    } else {
        Parsed::Fault {
            fault: inp.fault(
                q,
                "A semi-colon is expected here."@,
                "Expected an end of statement to follow an uninitialized declaration."@,
            ),
        }
    }
}

/// `visibility? "static"? (property | function)`: a member of a class that
/// is neither a plain property nor a plain method. Without a modifier the
/// member is private. This production never reports no match.
pub open spec fn class_allowed_statement(inp: Input, p: int) -> Parsed<ClassAllowedStatementView>
    decreases inp.left(p), 4nat,
{
    if let Parsed::Fault { fault } = visibility(inp, p) {
        Parsed::Fault { fault }
    } else {
        let visibility = visibility_or(inp, p, Visibility::Private);
        let q = behind_visibility(inp, p);
        if inp.is_keyword(q, KeyWord::Static) {
            static_member(inp, p, q, visibility)
        } else {
            plain_member(inp, p, q, visibility)
        }
    }
}

/// The static member with the visibility `visibility` that begins at `p`
/// and whose keyword `static` stands at `q`.
pub open spec fn static_member(inp: Input, p: int, q: int, visibility: Visibility) -> Parsed<
    ClassAllowedStatementView,
>
    decreases inp.left(q), 3nat,
{
    if !inp.is_keyword(q, KeyWord::Static) {
        Parsed::NoMatch
    } else {
        let q1 = inp.skip(q + 1);
        match class_member(inp, q1, visibility) {
            Parsed::Fault { fault } => Parsed::Fault { fault },
            Parsed::NoMatch => Parsed::Fault {
                fault: inp.fault(
                    q1,
                    "Unexpected token: "@ + inp.kind_name(q1),
                    "Expected a property or function declaration but none was found."@,
                ),
            },
            Parsed::Match { value, rest } => Parsed::Match {
                value: ClassAllowedStatementView::Static(Box::new(value)),
                rest: (q1 + rest - p) as nat,
            },
        }
    }
}

/// The member with the visibility `visibility` that begins at `p` and is
/// not static, read from `q` on.
pub open spec fn plain_member(inp: Input, p: int, q: int, visibility: Visibility) -> Parsed<
    ClassAllowedStatementView,
>
    decreases inp.left(q), 3nat,
{
    if inp.runs_out(q) {
        Parsed::Fault {
            fault: inp.exhausted(q, "Expected a class statement but none was found."@),
        }
    } else {
        let q1 = inp.skip(q);
        match class_member(inp, q1, visibility) {
            Parsed::Fault { fault } => Parsed::Fault { fault },
            Parsed::NoMatch => Parsed::Fault {
                fault: inp.fault(
                    q1,
                    "Expected a property or function declaration but none was found."@,
                    "Unexpected token: "@ + inp.kind_name(q1),
                ),
            },
            Parsed::Match { value, rest } => Parsed::Match {
                value,
                rest: (q1 + rest - p) as nat,
            },
        }
    }
}

/// A property or a method with the visibility `visibility`, in that order.
pub open spec fn class_member(inp: Input, p: int, visibility: Visibility) -> Parsed<
    ClassAllowedStatementView,
>
    decreases inp.left(p), 2nat,
{
    match class_property(inp, p, visibility) {
        Parsed::Fault { fault } => Parsed::Fault { fault },
        Parsed::Match { value, rest } => Parsed::Match {
            value: ClassAllowedStatementView::Property(value),
            rest,
        },
        Parsed::NoMatch => match function(inp, p) {
            Parsed::Fault { fault } => Parsed::Fault { fault },
            Parsed::NoMatch => Parsed::NoMatch,
            Parsed::Match { value, rest } => Parsed::Match {
                value: ClassAllowedStatementView::Method(FunctionView { visibility, ..value }),
                rest,
            },
        },
    }
}

// ---------------------------------------------------------------------------
// Programs
// ---------------------------------------------------------------------------
/// What parsing a whole input comes to: the nodes of the program, or a
/// fault with the nodes that were parsed before it.
pub ghost enum Program {
    Done { nodes: Seq<NodeView> },
    Fault { fault: Fault, nodes: Seq<NodeView> },
}

/// The node for what was found at `p`, where it takes `rest` tokens besides
/// the first: it reaches from the start of the first token to the end of
/// the last.
pub open spec fn node_at(inp: Input, p: int, kind: NodeKindView, rest: nat) -> NodeView {
    NodeView { kind, start: inp.tokens[p].start, end: inp.tokens[p + rest].end }
}

/// `node := statement | expression`: one top-level unit of a program.
pub open spec fn node(inp: Input, p: int) -> Parsed<NodeView> {
    match statement(inp, p) {
        Parsed::Fault { fault } => Parsed::Fault { fault },
        Parsed::Match { value, rest } => Parsed::Match {
            value: node_at(inp, p, NodeKindView::Statement(value), rest),
            rest,
        },
        Parsed::NoMatch => match expression(inp, p) {
            Parsed::Fault { fault } => Parsed::Fault { fault },
            Parsed::Match { value, rest } => Parsed::Match {
                value: node_at(inp, p, NodeKindView::Expression(value), rest),
                rest,
            },
            Parsed::NoMatch => Parsed::NoMatch,
        },
    }
}

/// The fault of a token that begins neither a statement nor an expression.
pub open spec fn unexpected(inp: Input, p: int) -> Fault {
    inp.fault(
        p,
        "Missing a valid statement or expression in global scope."@,
        "Unable to proceed parsing. A known token was unexpected at this time."@,
    )
}

/// `program := node*`, with whitespace and comments between the nodes: the
/// nodes from `p` to the end of the input, after the nodes `acc`. A token
/// that begins no node is a fault.
pub open spec fn program(inp: Input, p: int, acc: Seq<NodeView>) -> Program
    decreases inp.left(p),
{
    let q = inp.skip(p);
    if !inp.has(q) {
        Program::Done { nodes: acc }
    } else {
        match node(inp, q) {
            Parsed::Fault { fault } => Program::Fault { fault, nodes: acc },
            Parsed::Match { value, rest } => program(inp, q + 1 + rest, acc.push(value)),
            Parsed::NoMatch => Program::Fault { fault: unexpected(inp, q), nodes: acc },
        }
    }
}

/// Whitespace and comments from `p` on do not reach past the end of the
/// input, and the token behind them is neither.
pub proof fn lemma_skip(inp: Input, p: int)
    requires
        0 <= p <= inp.tokens.len(),
    ensures
        p <= inp.skip(p) <= inp.tokens.len(),
        inp.has(inp.skip(p)) ==> !inp.tokens[inp.skip(p)].kind.blank(),
        forall|i: int| p <= i < inp.skip(p) ==> (#[trigger] inp.tokens[i]).kind.blank(),
    decreases inp.left(p),
{
    if inp.has(p) && inp.tokens[p].kind.blank() {
        lemma_skip(inp, p + 1);
    }
}

} // verus!
