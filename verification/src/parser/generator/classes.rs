//! The productions of classes.
use vstd::prelude::*;

use std::ops::Range;

use crate::parser::context::{Context, SourceOrigin};
use crate::parser::grammar;
use crate::parser::grammar::{Fault, Input, Listed, Parsed, Program};
use crate::parser::{ParserError, ParserErrorView};
use crate::ast::ops::AnyOperation;
use crate::ast::types::{TypeKind, TypeKindView, TypeParam, TypeParamView, TypeReference, TypeUnion};
use crate::ast::{
    Array, AstBody, AstBodyView, Call, Class, ClassAllowedStatement, ClassBody, ClassProperty,
    Expression, ExpressionView, Function, FunctionInput, FunctionInputView, Literal,
    MemberListNode, MemberLookup, Namespace, NewCall, Node, NodeKind, Object, ObjectProperty,
    Operation, Path, Return, Statement, Static, Variable, VariableView, Visibility,
};
use crate::lexer::keyword::KeyWord;
use crate::lexer::token::{Token, TokenType, TokenView};
use crate::text::{str_eq, strings_view};
use crate::util::TokenStream;
use super::{agrees, lifted, lifted_block, lifted_inputs, lifted_names, lifted_params, lifted_variable, text_of, AstGenerator};

verus! {

impl AstGenerator {
    // -----------------------------------------------------------------------
    // Classes
    // -----------------------------------------------------------------------
    /// Parses a class declaration. The class is given the id that follows
    /// the local id given out last.
    pub fn parse_class(&mut self) -> (r: Result<Option<Class>, ParserError>)
        requires
            old(self).inv(),
        ensures
            final(self).follows(old(self)),
            agrees(
                lifted(r),
                grammar::class(old(self).input(), old(self).at()),
                old(self).at(),
                final(self).at(),
                old(self).body@,
            ),
        decreases old(self).input().left(old(self).at()), 1nat,
    {
        proof {
            reveal(grammar::class_body);
        }
        if !self.check_keyword(0, KeyWord::Class) {
            return Ok(None);
        }
        self.take();
        self.skip_whitespace();
        if !self.check(0, TokenType::Identifier) {
            let mut reason = "Unexpected token: ".to_string();
            reason.append(self.kind_name().as_str());
            return Err(self.fail(reason, "Expected a class name but none was found.".to_string()));
        }
        let name = self.take();
        self.skip_whitespace();
        let extends = match self.parse_class_extension() {
            Err(e) => {
                return Err(e);
            },
            Ok(x) => x,
        };
        self.skip_whitespace();
        let implements = match self.parse_class_implementation() {
            Err(e) => {
                return Err(e);
            },
            Ok(x) => x,
        };
        let body = match self.parse_class_body() {
            Err(e) => {
                return Err(e);
            },
            Ok(Some(b)) => b,
            Ok(None) => ClassBody::new(),
        };
        Ok(
            Some(
                Class::with(
                    text_of(&name),
                    extends,
                    implements,
                    body,
                    self.context.last_local_id() + 1,
                ),
            ),
        )
    }

    /// Parses `extends` and the name of the superclass.
    pub fn parse_class_extension(&mut self) -> (r: Result<Option<String>, ParserError>)
        requires
            old(self).inv(),
        ensures
            final(self).follows(old(self)),
            agrees(
                lifted(r),
                grammar::class_extension(old(self).input(), old(self).at()),
                old(self).at(),
                final(self).at(),
                old(self).body@,
            ),
    {
        proof {
            reveal(grammar::class_extension);
        }
        if !self.check_keyword(0, KeyWord::Extends) {
            return Ok(None);
        }
        self.take();
        self.skip_whitespace();
        if self.check(0, TokenType::Identifier) {
            let path = self.take();
            Ok(Some(text_of(&path)))
        } else {
            let mut reason = "Unexpected token: ".to_string();
            reason.append(self.kind_name().as_str());
            Err(self.fail(reason, "Expected a class name to extend but none was found.".to_string()))
        }
    }

    /// Parses `implements` and the names of the interfaces, separated by
    /// commas.
    pub fn parse_class_implementation(&mut self) -> (r: Result<Option<Vec<String>>, ParserError>)
        requires
            old(self).inv(),
        ensures
            final(self).follows(old(self)),
            agrees(
                lifted_names(r),
                grammar::class_implementation(old(self).input(), old(self).at()),
                old(self).at(),
                final(self).at(),
                old(self).body@,
            ),
    {
        proof {
            reveal(grammar::class_implementation);
            reveal(grammar::implement_items);
        }
        let ghost inp = self.input();
        let ghost p = self.at();
        if !self.check_keyword(0, KeyWord::Implements) {
            return Ok(None);
        }
        self.take();
        self.skip_whitespace();
        if !self.check(0, TokenType::Identifier) {
            let mut message = "Unexpected token: ".to_string();
            message.append(self.kind_name().as_str());
            return Err(
                self.fail(
                    "Expected a class name to implement but none was found.".to_string(),
                    message,
                ),
            );
        }
        let ghost q = self.at();
        let first = self.take();
        let mut paths: Vec<String> = Vec::new();
        let first_name = text_of(&first);
        proof {
            crate::text::lemma_strings_push(paths@, first_name);
            assert(seq![first_name@] =~= Seq::<Seq<char>>::empty().push(first_name@));
        }
        paths.push(first_name);
        loop
            invariant
                self.inv(),
                self.follows(old(self)),
                inp == self.input(),
                inp == old(self).input(),
                p == old(self).at(),
                p < q < self.at(),
                q == inp.skip(p + 1),
                inp.is_keyword(p, KeyWord::Implements),
                inp.is(q, TokenType::Identifier),
                grammar::implement_items(inp, self.at(), strings_view(paths@))
                    == grammar::implement_items(inp, q + 1, seq![inp.text(q)]),
            decreases inp.left(self.at()),
        {
            proof {
                reveal(grammar::class_implementation);
                reveal(grammar::implement_items);
            }
            self.skip_whitespace();
            if self.check(0, TokenType::Comma) {
                self.take();
                self.skip_whitespace();
                if self.check(0, TokenType::Identifier) {
                    let path = self.take();
                    let path_name = text_of(&path);
                    proof {
                        crate::text::lemma_strings_push(paths@, path_name);
                    }
                    paths.push(path_name);
                } else {
                    let mut reason = "Unexpected token: ".to_string();
                    reason.append(self.kind_name().as_str());
                    return Err(
                        self.fail(
                            reason,
                            "Expected a class name to extend but none was found.".to_string(),
                        ),
                    );
                }
            } else if !self.tokens.is_eof() {
                return Ok(Some(paths));
            } else {
                let mut reason = "Unexpected token: ".to_string();
                reason.append(self.kind_name().as_str());
                return Err(
                    self.fail(
                        reason,
                        "Expected a class name or interface to implement but none was found.".to_string(),
                    ),
                );
            }
        }
    }

    /// Parses a property of a class with the visibility `visibility`:
    /// `name;`, `name: type;`, `name = value;`, `name: type = value;`.
    #[verifier::rlimit(50)]
    pub fn parse_class_property(&mut self, visibility: Visibility) -> (r: Result<
        Option<ClassProperty>,
        ParserError,
    >)
        requires
            old(self).inv(),
        ensures
            final(self).follows(old(self)),
            agrees(
                lifted(r),
                grammar::class_property(old(self).input(), old(self).at(), visibility),
                old(self).at(),
                final(self).at(),
                old(self).body@,
            ),
        decreases old(self).input().left(old(self).at()), 1nat,
    {
        proof {
            reveal_with_fuel(grammar::class_property, 2);
        }
        let ghost p = self.at();
        if !self.check(0, TokenType::Identifier) {
            return Ok(None);
        }
        let name = self.take();
        self.skip_whitespace();
        let type_node: Option<TypeKind> = if self.check(0, TokenType::Colon) {
            self.take();
            self.skip_whitespace();
            match self.parse_type_kind() {
                Err(e) => {
                    return Err(e);
                },
                Ok(None) => {
                    return Err(
                        self.fail(
                            "A type statement is expected here.".to_string(),
                            "Expected a type statement to follow a property declaration.".to_string(),
                        ),
                    );
                },
                Ok(Some(kind)) => Some(kind),
            }
        } else {
            None
        };
        self.parse_property_value(Ghost(p), text_of(&name), visibility, type_node)
    }

    /// Parses what follows the name and the type of a property: an initial
    /// value and a semicolon, or a semicolon alone.
    #[verifier::rlimit(50)]
    fn parse_property_value(
        &mut self,
        Ghost(p): Ghost<int>,
        name: String,
        visibility: Visibility,
        type_node: Option<TypeKind>,
    ) -> (r: Result<Option<ClassProperty>, ParserError>)
        requires
            old(self).inv(),
            0 <= p < old(self).at(),
        ensures
            final(self).follows(old(self)),
            agrees(
                lifted(r),
                grammar::property_value(
                    old(self).input(),
                    p,
                    old(self).at(),
                    name@,
                    visibility,
                    match type_node {
                        Some(t) => Some(t@),
                        None => None,
                    },
                ),
                p,
                final(self).at(),
                old(self).body@,
            ),
        decreases old(self).input().left(old(self).at()), 6nat,
    {
        if self.check_operator(0, "=") {
            self.take();
            match self.skip_whitespace_err("An expression was expected but none was found.") {
                Err(e) => {
                    return Err(e);
                },
                Ok(_) => {},
            }
            match self.parse_expression() {
                Err(e) => Err(e),
                Ok(None) => Err(
                    self.fail(
                        "An expression is expected here.".to_string(),
                        "Expected an expression to follow a variable declaration.".to_string(),
                    ),
                ),
                Ok(Some(expr)) => {
                    match self.skip_whitespace_err("A semicolon was expected but none was found.") {
                        Err(e) => {
                            return Err(e);
                        },
                        Ok(_) => {},
                    }
                    if self.check(0, TokenType::StatementEnd) {
                        self.take();
                        Ok(
                            Some(
                                ClassProperty::new(
                                    name,
                                    visibility,
                                    type_node,
                                    Some(expr),
                                ),
                            ),
                        )
                    } else {
                        Err(
                            self.fail(
                                "Expected a semicolon to follow a variable declaration.".to_string(),
                                "A semicolon is expected here.".to_string(),
                            ),
                        )
                    }
                },
            }
        } else if self.check(0, TokenType::StatementEnd) {
            self.take();
            Ok(Some(ClassProperty::new(name, visibility, type_node, None)))
        } else {
            Err(
                self.fail(
                    "A semi-colon is expected here.".to_string(),
                    "Expected an end of statement to follow an uninitialized declaration.".to_string(),
                ),
            )
        }
    }

    /// Parses a property or a method with the visibility `visibility`.
    pub(crate) fn parse_class_member(&mut self, visibility: Visibility) -> (r: Result<
        Option<ClassAllowedStatement>,
        ParserError,
    >)
        requires
            old(self).inv(),
        ensures
            final(self).follows(old(self)),
            agrees(
                lifted(r),
                grammar::class_member(old(self).input(), old(self).at(), visibility),
                old(self).at(),
                final(self).at(),
                old(self).body@,
            ),
        decreases old(self).input().left(old(self).at()), 2nat,
    {
        match self.parse_class_property(visibility) {
            Err(e) => {
                return Err(e);
            },
            Ok(Some(property)) => {
                return Ok(Some(ClassAllowedStatement::Property(property)));
            },
            Ok(None) => {},
        }
        match self.parse_function() {
            Err(e) => Err(e),
            Ok(None) => Ok(None),
            Ok(Some(func)) => Ok(Some(ClassAllowedStatement::Method(func.with_visibility(visibility)))),
        }
    }

    /// Parses a member of a class that begins with a visibility modifier or
    /// with `static`. What stands there and is no such member is an error.
    pub fn parse_class_allowed_statement(&mut self) -> (r: Result<
        Option<ClassAllowedStatement>,
        ParserError,
    >)
        requires
            old(self).inv(),
        ensures
            final(self).follows(old(self)),
            agrees(
                lifted(r),
                grammar::class_allowed_statement(old(self).input(), old(self).at()),
                old(self).at(),
                final(self).at(),
                old(self).body@,
            ),
        decreases old(self).input().left(old(self).at()), 4nat,
    {
        let ghost p = self.at();
        let visibility = match self.parse_visibility() {
            Err(e) => {
                return Err(e);
            },
            Ok(Some(v)) => v,
            Ok(None) => Visibility::Private,
        };
        if self.check_keyword(0, KeyWord::Static) {
            self.parse_static_member(Ghost(p), visibility)
        } else {
            self.parse_plain_member(Ghost(p), visibility)
        }
    }

    /// Parses `static` and the property or method behind it.
    fn parse_static_member(&mut self, Ghost(p): Ghost<int>, visibility: Visibility) -> (r: Result<
        Option<ClassAllowedStatement>,
        ParserError,
    >)
        requires
            old(self).inv(),
            p <= old(self).at(),
            old(self).input().is_keyword(old(self).at(), KeyWord::Static),
        ensures
            final(self).follows(old(self)),
            agrees(
                lifted(r),
                grammar::static_member(old(self).input(), p, old(self).at(), visibility),
                p,
                final(self).at(),
                old(self).body@,
            ),
        decreases old(self).input().left(old(self).at()), 3nat,
    {
        self.take();
        self.skip_whitespace();
        match self.parse_class_member(visibility) {
            Err(e) => Err(e),
            Ok(Some(member)) => Ok(Some(ClassAllowedStatement::new_static(member))),
            Ok(None) => {
                let mut reason = "Unexpected token: ".to_string();
                reason.append(self.kind_name().as_str());
                Err(
                    self.fail(
                        reason,
                        "Expected a property or function declaration but none was found.".to_string(),
                    ),
                )
            },
        }
    }

    /// Parses the property or method of a member that is not static.
    fn parse_plain_member(&mut self, Ghost(p): Ghost<int>, visibility: Visibility) -> (r: Result<
        Option<ClassAllowedStatement>,
        ParserError,
    >)
        requires
            old(self).inv(),
            p <= old(self).at(),
        ensures
            final(self).follows(old(self)),
            agrees(
                lifted(r),
                grammar::plain_member(old(self).input(), p, old(self).at(), visibility),
                p,
                final(self).at(),
                old(self).body@,
            ),
        decreases old(self).input().left(old(self).at()), 3nat,
    {
        match self.skip_whitespace_err("Expected a class statement but none was found.") {
            Err(e) => {
                return Err(e);
            },
            Ok(_) => {},
        }
        match self.parse_class_member(visibility) {
            Err(e) => Err(e),
            Ok(Some(member)) => Ok(Some(member)),
            Ok(None) => {
                let mut message = "Unexpected token: ".to_string();
                message.append(self.kind_name().as_str());
                Err(
                    self.fail(
                        "Expected a property or function declaration but none was found.".to_string(),
                        message,
                    ),
                )
            },
        }
    }

    /// Parses the body of a class: its members between braces, sorted into
    /// properties, methods and the rest.
    pub fn parse_class_body(&mut self) -> (r: Result<Option<ClassBody>, ParserError>)
        requires
            old(self).inv(),
        ensures
            final(self).follows(old(self)),
            agrees(
                lifted(r),
                grammar::class_body(old(self).input(), old(self).at()),
                old(self).at(),
                final(self).at(),
                old(self).body@,
            ),
        decreases old(self).input().left(old(self).at()), 1nat,
    {
        let ghost inp = self.input();
        let ghost p = self.at();
        if !self.check(0, TokenType::LeftBrace) {
            proof {
                reveal(grammar::class_body);
            }
            return Ok(None);
        }
        self.take();
        let mut body = ClassBody::new();
        let ghost whole = grammar::class_items(inp, p + 1, body@);
        assert(grammar::class_body(inp, p) == match whole {
            Listed::Fault { fault } => Parsed::<crate::ast::ClassBodyView>::Fault { fault },
            Listed::Done { values, end } => Parsed::Match { value: values, rest: (end - p - 1) as nat },
        }) by {
            reveal(grammar::class_body);
            reveal(grammar::class_items);
        }
        loop
            invariant
                self.inv(),
                self.follows(old(self)),
                inp == self.input(),
                inp == old(self).input(),
                p == old(self).at(),
                p < self.at(),
                inp.has(p),
                grammar::class_body(inp, p) == match whole {
                    Listed::Fault { fault } => Parsed::<crate::ast::ClassBodyView>::Fault { fault },
                    Listed::Done { values, end } => Parsed::Match {
                        value: values,
                        rest: (end - p - 1) as nat,
                    },
                },
                grammar::class_items(inp, self.at(), body@) == whole,
            decreases inp.left(self.at()),
        {
            match self.parse_class_item(&mut body) {
                Err(e) => {
                    return Err(e);
                },
                Ok(true) => {
                    return Ok(Some(body));
                },
                Ok(false) => {},
            }
        }
    }

    /// Parses one member of a class and adds it to `body`, or the brace
    /// that closes the class. Returns whether the class is closed.
    fn parse_class_item(&mut self, body: &mut ClassBody) -> (r: Result<bool, ParserError>)
        requires
            old(self).inv(),
        ensures
            final(self).follows(old(self)),
            match r {
                Err(e) => grammar::class_items(old(self).input(), old(self).at(), old(body)@)
                    == (Listed::<crate::ast::ClassBodyView>::Fault { fault: e@.fault }) && e@.ast
                    == old(self).body@,
                Ok(true) => grammar::class_items(old(self).input(), old(self).at(), old(body)@)
                    == (Listed::Done { values: final(body)@, end: final(self).at() }) && old(
                    self,
                ).at() < final(self).at(),
                Ok(false) => grammar::class_items(old(self).input(), old(self).at(), old(body)@)
                    == grammar::class_items(old(self).input(), final(self).at(), final(body)@)
                    && old(self).at() < final(self).at() && old(self).input().has(old(self).at()),
            },
        decreases old(self).input().left(old(self).at()), 6nat,
    {
        proof {
            reveal(grammar::class_items);
        }
        match self.skip_whitespace_err("Expected a right brace to close the class body, found none.") {
            Err(e) => {
                return Err(e);
            },
            Ok(_) => {},
        }
        if self.check(0, TokenType::RightBrace) {
            self.take();
            return Ok(true);
        }
        match self.parse_class_property(Visibility::Private) {
            Err(e) => {
                return Err(e);
            },
            Ok(Some(property)) => {
                body.push_property(property);
                return Ok(false);
            },
            Ok(None) => {},
        }
        match self.parse_function() {
            Err(e) => {
                return Err(e);
            },
            Ok(Some(method)) => {
                body.push_method(method);
                return Ok(false);
            },
            Ok(None) => {},
        }
        match self.parse_class_allowed_statement() {
            Err(e) => Err(e),
            Ok(Some(other)) => {
                body.push_other(other);
                Ok(false)
            },
            Ok(None) => {
                let mut reason = "Unexpected token: \"".to_string();
                reason.append(self.kind_name().as_str());
                reason.append("\" inside class body.");
                Err(
                    self.fail(
                        reason,
                        "Classes must contain a property, method, import or macro.".to_string(),
                    ),
                )
            },
        }
    }
}

} // verus!
