//! The productions of expressions.
use vstd::prelude::*;

use std::ops::Range;

use crate::parser::context::{Context, SourceOrigin};
use crate::parser::grammar;
use crate::parser::grammar::{Fault, Input, Listed, Parsed, Program};
use crate::parser::{ParserError, ParserErrorView};
use crate::ast::ops::AnyOperation;
use crate::ast::types::{TypeKind, TypeKindView, TypeParam, TypeParamView, TypeReference, TypeUnion};
use crate::ast::{
    Array, AstBody, AstBodyView, Call, Class, ClassAllowedStatement, ClassBody, ClassProperty,
    Expression, ExpressionView, Function, FunctionInput, FunctionInputView, Literal,
    MemberListNode, MemberLookup, Namespace, NewCall, Node, NodeKind, Object, ObjectProperty,
    Operation, Path, Return, Statement, Static, Variable, VariableView, Visibility,
};
use crate::lexer::keyword::KeyWord;
use crate::lexer::token::{Token, TokenType, TokenView};
use crate::text::{str_eq, strings_view};
use crate::util::TokenStream;
use super::{agrees, lifted, lifted_block, lifted_inputs, lifted_names, lifted_params, lifted_variable, text_of, AstGenerator};

verus! {

impl AstGenerator {
    // -----------------------------------------------------------------------
    // Expressions
    // -----------------------------------------------------------------------
    /// The text of the next token.
    pub(crate) fn first_text(&self) -> (s: String)
        requires
            self.input().has(self.at()),
        ensures
            s@ == self.input().text(self.at()),
    {
        match self.tokens.nth_ref(0) {
            Some(t) => text_of(t),
            None => String::new(),
        }
    }

    /// Parses an expression: a left operand and, if an operator follows it,
    /// the operator and a whole expression as the right operand.
    pub fn parse_expression(&mut self) -> (r: Result<Option<Expression>, ParserError>)
        requires
            old(self).inv(),
        ensures
            final(self).follows(old(self)),
            agrees(
                lifted(r),
                grammar::expression(old(self).input(), old(self).at()),
                old(self).at(),
                final(self).at(),
                old(self).body@,
            ),
        decreases old(self).input().left(old(self).at()), 5nat,
    {
        let left = match self.parse_expression_head() {
            Err(e) => {
                return Err(e);
            },
            Ok(None) => {
                return Ok(None);
            },
            Ok(Some(left)) => left,
        };
        self.skip_whitespace();
        if !self.check(0, TokenType::Operator) {
            return Ok(Some(left));
        }
        let ops = self.take();
        let text = text_of(&ops);
        match AnyOperation::from_string(text.clone()) {
            None => {
                let mut reason = "Unknown operator: ".to_string();
                reason.append(text.as_str());
                Err(ParserError::new(reason, text, ops.range(), self.body.clone(), None))
            },
            Some(op) => {
                self.skip_whitespace();
                match self.parse_expression() {
                    Err(e) => Err(e),
                    Ok(None) => Err(
                        self.fail(
                            "An expression is expected here.".to_string(),
                            "Expected an expression to follow an operation.".to_string(),
                        ),
                    ),
                    Ok(Some(right)) => Ok(
                        Some(Expression::Operation(Operation::new(left, op, right))),
                    ),
                }
            },
        }
    }

    /// Parses the left operand of an expression: the first alternative that
    /// stands at the next token.
    pub(crate) fn parse_expression_head(&mut self) -> (r: Result<Option<Expression>, ParserError>)
        requires
            old(self).inv(),
        ensures
            final(self).follows(old(self)),
            agrees(
                lifted(r),
                grammar::expression_head(old(self).input(), old(self).at()),
                old(self).at(),
                final(self).at(),
                old(self).body@,
            ),
        decreases old(self).input().left(old(self).at()), 4nat,
    {
        match self.parse_statement() {
            Err(e) => {
                return Err(e);
            },
            Ok(Some(x)) => {
                return Ok(Some(Expression::Statement(Box::new(x))));
            },
            Ok(None) => {},
        }
        match self.parse_call_expression() {
            Err(e) => {
                return Err(e);
            },
            Ok(Some(x)) => {
                return Ok(Some(Expression::Call(x)));
            },
            Ok(None) => {},
        }
        match self.parse_member_expression() {
            Err(e) => {
                return Err(e);
            },
            Ok(Some(x)) => {
                return Ok(Some(Expression::Member(x)));
            },
            Ok(None) => {},
        }
        match self.parse_new_expression() {
            Err(e) => {
                return Err(e);
            },
            Ok(Some(x)) => {
                return Ok(Some(Expression::New(x)));
            },
            Ok(None) => {},
        }
        match self.parse_array_expression() {
            Err(e) => {
                return Err(e);
            },
            Ok(Some(x)) => {
                return Ok(Some(Expression::Array(x)));
            },
            Ok(None) => {},
        }
        match self.parse_object_expression() {
            Err(e) => {
                return Err(e);
            },
            Ok(Some(x)) => {
                return Ok(Some(Expression::Object(x)));
            },
            Ok(None) => {},
        }
        match self.parse_literal_expression() {
            Err(e) => Err(e),
            Ok(Some(x)) => Ok(Some(Expression::Literal(x))),
            Ok(None) => Ok(None),
        }
    }

    /// Parses a call: a name with a parenthesised list of arguments
    /// directly behind it.
    pub fn parse_call_expression(&mut self) -> (r: Result<Option<Call>, ParserError>)
        requires
            old(self).inv(),
        ensures
            final(self).follows(old(self)),
            agrees(
                lifted(r),
                grammar::call(old(self).input(), old(self).at()),
                old(self).at(),
                final(self).at(),
                old(self).body@,
            ),
        decreases old(self).input().left(old(self).at()), 2nat,
    {
        if !self.check(0, TokenType::Identifier) {
            return Ok(None);
        }
        let name = self.first_text();
        match self.parse_function_call_inputs() {
            Err(e) => Err(e),
            Ok(None) => Ok(None),
            Ok(Some(args)) => Ok(Some(Call::new(name, args))),
        }
    }

    /// Parses a member access: a name, an accessor directly behind it, and
    /// an expression.
    pub fn parse_member_expression(&mut self) -> (r: Result<Option<MemberListNode>, ParserError>)
        requires
            old(self).inv(),
        ensures
            final(self).follows(old(self)),
            agrees(
                lifted(r),
                grammar::member(old(self).input(), old(self).at()),
                old(self).at(),
                final(self).at(),
                old(self).body@,
            ),
        decreases old(self).input().left(old(self).at()), 1nat,
    {
        if !(self.check(0, TokenType::Identifier) && self.check(1, TokenType::Accessor)) {
            return Ok(None);
        }
        let origin = self.take();
        let accessor = self.take();
        let spelled = text_of(&accessor);
        let lookup = if str_eq(spelled.as_str(), "::") {
            MemberLookup::Static
        } else {
            MemberLookup::Dynamic
        };
        match self.parse_expression() {
            Err(e) => Err(e),
            Ok(None) => Err(
                self.fail(
                    "An expression was expected here.".to_string(),
                    "Expected an expression to follow a property member.".to_string(),
                ),
            ),
            Ok(Some(name)) => Ok(Some(MemberListNode::new(name, origin, lookup))),
        }
    }

    /// Parses an instantiation: `new`, a name, and a parenthesised list of
    /// arguments.
    pub fn parse_new_expression(&mut self) -> (r: Result<Option<NewCall>, ParserError>)
        requires
            old(self).inv(),
        ensures
            final(self).follows(old(self)),
            agrees(
                lifted(r),
                grammar::new_call(old(self).input(), old(self).at()),
                old(self).at(),
                final(self).at(),
                old(self).body@,
            ),
        decreases old(self).input().left(old(self).at()), 1nat,
    {
        if !self.check_keyword(0, KeyWord::New) {
            return Ok(None);
        }
        self.take();
        self.skip_whitespace();
        if !self.check(0, TokenType::Identifier) {
            return Err(
                self.fail(
                    "A name was expected here.".to_string(),
                    "Expected a name to follow a new expression.".to_string(),
                ),
            );
        }
        let name = self.first_text();
        match self.parse_function_call_inputs() {
            Err(e) => Err(e),
            Ok(None) => Err(
                self.fail(
                    "Function inputs expected here.".to_string(),
                    "Expected a function call inputs to follow a new expression.".to_string(),
                ),
            ),
            Ok(Some(args)) => Ok(Some(NewCall::new(name, args))),
        }
    }

    /// Parses an array literal. An array that is not closed before the
    /// input ends is an error.
    pub fn parse_array_expression(&mut self) -> (r: Result<Option<Array>, ParserError>)
        requires
            old(self).inv(),
        ensures
            final(self).follows(old(self)),
            agrees(
                lifted(r),
                grammar::array(old(self).input(), old(self).at()),
                old(self).at(),
                final(self).at(),
                old(self).body@,
            ),
        decreases old(self).input().left(old(self).at()), 1nat,
    {
        let ghost inp = self.input();
        let ghost p = self.at();
        if !self.check(0, TokenType::LeftBracket) {
            return Ok(None);
        }
        self.take();
        let mut elements: Vec<Expression> = Vec::new();
        proof {
            assert(Expression::views(elements@) =~= Seq::empty());
        }
        loop
            invariant
                self.inv(),
                self.follows(old(self)),
                inp == self.input(),
                inp == old(self).input(),
                p == old(self).at(),
                p < self.at(),
                inp.is(p, TokenType::LeftBracket),
                grammar::array_items(inp, self.at(), Expression::views(elements@))
                    == grammar::array_items(inp, p + 1, Seq::empty()),
            decreases inp.left(self.at()),
        {
            match self.skip_whitespace_err("Array's must be closed.") {
                Err(e) => {
                    return Err(e);
                },
                Ok(_) => {},
            }
            match self.parse_expression() {
                Err(e) => {
                    return Err(e);
                },
                Ok(Some(element)) => {
                    match self.skip_whitespace_err("Array's must be closed.") {
                        Err(e) => {
                            return Err(e);
                        },
                        Ok(_) => {},
                    }
                    proof {
                        Expression::lemma_views_push(elements@, element);
                    }
                    if self.check(0, TokenType::Comma) {
                        self.take();
                        elements.push(element);
                    } else if self.check(0, TokenType::RightBracket) {
                        self.take();
                        elements.push(element);
                        return Ok(Some(Array::new(elements, None)));
                    } else {
                        return Err(
                            self.fail(
                                "A comma is expected here.".to_string(),
                                "A comma is required to seperate array elements.".to_string(),
                            ),
                        );
                    }
                },
                Ok(None) => {
                    if self.check(0, TokenType::RightBracket) {
                        self.take();
                        return Ok(Some(Array::new(elements, None)));
                    } else {
                        let mut reason = "Unexpected Token: ".to_string();
                        reason.append(self.kind_name().as_str());
                        return Err(
                            self.fail(
                                reason,
                                "Expected an expression to follow an array element.".to_string(),
                            ),
                        );
                    }
                },
            }
        }
    }

    /// Parses an object literal. An object that is not closed before the
    /// input ends is an error.
    pub fn parse_object_expression(&mut self) -> (r: Result<Option<Object>, ParserError>)
        requires
            old(self).inv(),
        ensures
            final(self).follows(old(self)),
            agrees(
                lifted(r),
                grammar::object(old(self).input(), old(self).at()),
                old(self).at(),
                final(self).at(),
                old(self).body@,
            ),
        decreases old(self).input().left(old(self).at()), 1nat,
    {
        let ghost inp = self.input();
        let ghost p = self.at();
        if !self.check(0, TokenType::LeftBrace) {
            return Ok(None);
        }
        self.take();
        let mut object: Object = Object::empty();
        loop
            invariant
                self.inv(),
                self.follows(old(self)),
                inp == self.input(),
                inp == old(self).input(),
                p == old(self).at(),
                p < self.at(),
                inp.is(p, TokenType::LeftBrace),
                object@.ty is None,
                grammar::object_items(inp, self.at(), object@.properties) == grammar::object_items(
                    inp,
                    p + 1,
                    Seq::empty(),
                ),
            decreases inp.left(self.at()),
        {
            match self.skip_whitespace_err("Object body must be closed.") {
                Err(e) => {
                    return Err(e);
                },
                Ok(_) => {},
            }
            if self.check(0, TokenType::Identifier) {
                let property = self.take();
                if !self.check(0, TokenType::Colon) {
                    let mut reason = "Unexpected Token: ".to_string();
                    reason.append(self.kind_name().as_str());
                    return Err(
                        self.fail(reason, "Expected a colon to follow a property name.".to_string()),
                    );
                }
                self.take();
                match self.skip_whitespace_err("Object body must be closed.") {
                    Err(e) => {
                        return Err(e);
                    },
                    Ok(_) => {},
                }
                match self.parse_expression() {
                    Err(e) => {
                        return Err(e);
                    },
                    Ok(None) => {
                        return Err(
                            self.fail(
                                "An expression was expected here.".to_string(),
                                "Expected an expression to follow a property.".to_string(),
                            ),
                        );
                    },
                    Ok(Some(expression)) => {
                        let prop = ObjectProperty::new(text_of(&property), expression);
                        if self.check(0, TokenType::Comma) {
                            self.take();
                            object.push_property(prop);
                        } else {
                            match self.skip_whitespace_err("Object body must be closed.") {
                                Err(e) => {
                                    return Err(e);
                                },
                                Ok(_) => {},
                            }
                            if self.check(0, TokenType::RightBrace) {
                                self.take();
                                object.push_property(prop);
                                return Ok(Some(object));
                            } else {
                                return Err(
                                    self.fail(
                                        "A right brace was expected here.".to_string(),
                                        "Expected a right brace to close an object body.".to_string(),
                                    ),
                                );
                            }
                        }
                    },
                }
            } else if self.check(0, TokenType::RightBrace) {
                self.take();
                return Ok(Some(object));
            } else {
                return Err(
                    self.fail(
                        "An object property was expected here.".to_string(),
                        "Expected an object property to follow an object element.".to_string(),
                    ),
                );
            }
        }
    }

    /// Parses a literal: a name, a number, a string or a truth value.
    pub fn parse_literal_expression(&mut self) -> (r: Result<Option<Literal>, ParserError>)
        requires
            old(self).inv(),
        ensures
            final(self).follows(old(self)),
            agrees(
                lifted(r),
                grammar::literal(old(self).input(), old(self).at()),
                old(self).at(),
                final(self).at(),
                old(self).body@,
            ),
    {
        if self.check_literal() {
            let v = self.take();
            Ok(Some(Literal::new(text_of(&v), None)))
        } else {
            Ok(None)
        }
    }

    /// Parses the arguments of a call whose callee is the next token: the
    /// callee, and the parenthesised list directly behind it.
    pub fn parse_function_call_inputs(&mut self) -> (r: Result<
        Option<Vec<Expression>>,
        ParserError,
    >)
        requires
            old(self).inv(),
        ensures
            final(self).follows(old(self)),
            agrees(
                lifted_block(r),
                grammar::call_inputs(old(self).input(), old(self).at()),
                old(self).at(),
                final(self).at(),
                old(self).body@,
            ),
        decreases old(self).input().left(old(self).at()), 1nat,
    {
        let ghost inp = self.input();
        let ghost p = self.at();
        if self.tokens.is_eof() || !self.check(1, TokenType::LeftParenthesis) {
            return Ok(None);
        }
        self.tokens.peek_inc(2);
        let mut inputs: Vec<Expression> = Vec::new();
        proof {
            assert(Expression::views(inputs@) =~= Seq::empty());
        }
        loop
            invariant
                self.inv(),
                self.follows(old(self)),
                inp == self.input(),
                inp == old(self).input(),
                p == old(self).at(),
                p + 1 < self.at(),
                inp.has(p),
                inp.is(p + 1, TokenType::LeftParenthesis),
                grammar::call_items(inp, self.at(), Expression::views(inputs@))
                    == grammar::call_items(inp, p + 2, Seq::empty()),
            decreases inp.left(self.at()),
        {
            match self.skip_whitespace_err("Function arguments must be closed.") {
                Err(e) => {
                    return Err(e);
                },
                Ok(_) => {},
            }
            match self.parse_expression() {
                Err(e) => {
                    return Err(e);
                },
                Ok(Some(expr)) => {
                    proof {
                        Expression::lemma_views_push(inputs@, expr);
                    }
                    if self.check(0, TokenType::Comma) {
                        self.take();
                        inputs.push(expr);
                    } else if self.check(0, TokenType::RightParenthesis) {
                        self.take();
                        inputs.push(expr);
                        return Ok(Some(inputs));
                    } else {
                        return Err(
                            self.fail(
                                "A comma is expected here.".to_string(),
                                "Expected a comma to follow a function input.".to_string(),
                            ),
                        );
                    }
                },
                Ok(None) => {
                    if self.check(0, TokenType::RightParenthesis) {
                        self.take();
                        return Ok(Some(inputs));
                    } else {
                        return Err(
                            self.fail(
                                "An expression is expected here.".to_string(),
                                "Expected an expression to follow a function input.".to_string(),
                            ),
                        );
                    }
                },
            }
        }
    }
}

} // verus!
