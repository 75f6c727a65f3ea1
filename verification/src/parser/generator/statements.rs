//! The productions of statements.
use vstd::prelude::*;

use std::ops::Range;

use crate::parser::context::{Context, SourceOrigin};
use crate::parser::grammar;
use crate::parser::grammar::{Fault, Input, Listed, Parsed, Program};
use crate::parser::{ParserError, ParserErrorView};
use crate::ast::ops::AnyOperation;
use crate::ast::types::{TypeKind, TypeKindView, TypeParam, TypeParamView, TypeReference, TypeUnion};
use crate::ast::{
    Array, AstBody, AstBodyView, Call, Class, ClassAllowedStatement, ClassBody, ClassProperty,
    Expression, ExpressionView, Function, FunctionInput, FunctionInputView, Literal,
    MemberListNode, MemberLookup, Namespace, NewCall, Node, NodeKind, Object, ObjectProperty,
    Operation, Path, Return, Statement, Static, Variable, VariableView, Visibility,
};
use crate::lexer::keyword::KeyWord;
use crate::lexer::token::{Token, TokenType, TokenView};
use crate::text::{str_eq, strings_view};
use crate::util::TokenStream;
use super::{agrees, lifted, lifted_block, lifted_inputs, lifted_names, lifted_params, lifted_variable, text_of, AstGenerator};

verus! {

impl AstGenerator {
    // -----------------------------------------------------------------------
    // Statements
    // -----------------------------------------------------------------------
    /// Parses a statement: the first of a namespace, a static declaration,
    /// a variable, a function and a class that stands at the next token.
    pub fn parse_statement(&mut self) -> (r: Result<Option<Statement>, ParserError>)
        requires
            old(self).inv(),
        ensures
            final(self).follows(old(self)),
            agrees(
                lifted(r),
                grammar::statement(old(self).input(), old(self).at()),
                old(self).at(),
                final(self).at(),
                old(self).body@,
            ),
        decreases old(self).input().left(old(self).at()), 3nat,
    {
        match self.parse_namespace() {
            Err(e) => {
                return Err(e);
            },
            Ok(Some(namespace)) => {
                return Ok(Some(Statement::Namespace(namespace)));
            },
            Ok(None) => {},
        }
        match self.parse_static() {
            Err(e) => {
                return Err(e);
            },
            Ok(Some(stmt)) => {
                return Ok(Some(stmt));
            },
            Ok(None) => {},
        }
        match self.parse_variable() {
            Err(e) => {
                return Err(e);
            },
            Ok(Some((var, constant))) => {
                if constant {
                    return Ok(Some(Statement::Const(var)));
                } else {
                    return Ok(Some(Statement::Var(var)));
                }
            },
            Ok(None) => {},
        }
        match self.parse_function() {
            Err(e) => {
                return Err(e);
            },
            Ok(Some(func)) => {
                return Ok(Some(Statement::Function(func)));
            },
            Ok(None) => {},
        }
        match self.parse_class() {
            Err(e) => Err(e),
            Ok(Some(class)) => Ok(Some(Statement::Class(class))),
            Ok(None) => Ok(None),
        }
    }

    /// Parses a namespace: the keyword, a path of names joined by
    /// backslashes, and a semicolon, or a block and a semicolon.
    pub fn parse_namespace(&mut self) -> (r: Result<Option<Namespace>, ParserError>)
        requires
            old(self).inv(),
        ensures
            final(self).follows(old(self)),
            agrees(
                lifted(r),
                grammar::namespace(old(self).input(), old(self).at()),
                old(self).at(),
                final(self).at(),
                old(self).body@,
            ),
        decreases old(self).input().left(old(self).at()), 1nat,
    {
        let ghost inp = self.input();
        let ghost p = self.at();
        if !self.check_keyword(0, KeyWord::Namespace) {
            return Ok(None);
        }
        self.take();
        let start = self.here();
        self.skip_whitespace();
        if !self.check(0, TokenType::Identifier) {
            return Err(
                self.fail_from(
                    start,
                    "Expected a namespace name.".to_string(),
                    "A namespace must always contain a path. A path is a series of identifiers seperated by backslashes.".to_string(),
                    None,
                ),
            );
        }
        let ghost q = self.at();
        let first = self.take();
        let name = text_of(&first);
        let mut path: Vec<String> = Vec::new();
        proof {
            crate::text::lemma_strings_push(path@, name);
        }
        loop
            invariant
                self.inv(),
                self.follows(old(self)),
                inp == self.input(),
                inp == old(self).input(),
                p == old(self).at(),
                p < q < self.at(),
                inp.is_keyword(p, KeyWord::Namespace),
                q == inp.skip(p + 1),
                inp.is(q, TokenType::Identifier),
                name@ == inp.text(q),
                start.start == inp.start_at(p + 1),
                start.end == inp.end_at(p + 1),
                grammar::namespace_tail(inp, p + 1, self.at(), name@, strings_view(path@))
                    == grammar::namespace_tail(inp, p + 1, q + 1, name@, Seq::empty()),
            decreases inp.left(self.at()),
        {
            self.skip_whitespace();
            if self.check(0, TokenType::Backslash) {
                self.take();
                if self.check(0, TokenType::Identifier) {
                    let ident = self.take();
                    let part = text_of(&ident);
                    proof {
                        crate::text::lemma_strings_push(path@, part);
                    }
                    path.push(part);
                } else {
                    return Err(
                        self.fail_from(
                            start,
                            "Expected identifier after backslash.".to_string(),
                            "Namespace sub-directories must always contain a valid identifier. A valid identifier is an expression that contains a letter, number preceeding any letter, or an underscore.".to_string(),
                            None,
                        ),
                    );
                }
            } else if self.check(0, TokenType::LeftBrace) {
                match self.parse_block() {
                    Err(e) => {
                        return Err(e);
                    },
                    Ok(None) => {
                        return Err(
                            self.fail(
                                "Expected block after namespace with opening brace.".to_string(),
                                "A statement block must always have an end. Identify the end with a curly brace }.".to_string(),
                            ),
                        );
                    },
                    Ok(Some(block)) => {
                        self.skip_whitespace();
                        if self.check(0, TokenType::StatementEnd) {
                            self.take();
                            return Ok(
                                Some(Namespace::with_block(Path::from(name, path), block)),
                            );
                        } else {
                            return Err(
                                self.fail(
                                    "A semi-colon was expected.".to_string(),
                                    "If a namespace is opening a block, it must always end with a semicolon to identify the end of the namespace.".to_string(),
                                ),
                            );
                        }
                    },
                }
            } else if self.check(0, TokenType::StatementEnd) {
                self.take();
                return Ok(Some(Namespace::new(Path::from(name, path))));
            } else {
                let mut extra = "Unexpected token: ".to_string();
                extra.append(self.kind_name().as_str());
                return Err(
                    self.fail_from(
                        start,
                        "Unable to parse namespace path.".to_string(),
                        "This statement is incomplete. A valid namespace statement contains the namespace keyword followed by a path preceeded with a backslash. A path is a series of identifiers seperated by backslashes.".to_string(),
                        Some(extra),
                    ),
                );
            }
        }
    }

    /// Where the keyword of a declaration stands that may follow a
    /// visibility modifier, counted from the next token, and the visibility
    /// that the declaration is given: that of the modifier, or `otherwise`.
    pub(crate) fn behind_visibility(&self, otherwise: Visibility) -> (r: (usize, Visibility))
        ensures
            self.at() + r.0 == grammar::behind_visibility(self.input(), self.at()),
            r.1 == grammar::visibility_or(self.input(), self.at(), otherwise),
            self.at() + r.0 <= self.input().tokens.len(),
            0 <= self.at() <= self.input().tokens.len(),
    {
        match self.tokens.nth_ref(0) {
            Some(t) => {
                if t.0.is_keyword() && t.0.as_keyword().is_visibility() {
                    let n = self.blanks_ahead(1);
                    (1 + n, Visibility::from_keyword(t.0.as_keyword()))
                } else {
                    (0, otherwise)
                }
            },
            None => (0, otherwise),
        }
    }

    /// Parses a static declaration: a visibility modifier, if there is one,
    /// the keyword `static`, and a statement.
    pub fn parse_static(&mut self) -> (r: Result<Option<Statement>, ParserError>)
        requires
            old(self).inv(),
        ensures
            final(self).follows(old(self)),
            agrees(
                lifted(r),
                grammar::static_statement(old(self).input(), old(self).at()),
                old(self).at(),
                final(self).at(),
                old(self).body@,
            ),
        decreases old(self).input().left(old(self).at()), 1nat,
    {
        let (k, visibility) = self.behind_visibility(Visibility::Private);
        if !self.check_keyword(k, KeyWord::Static) {
            return Ok(None);
        }
        self.tokens.peek_inc(k + 1);
        self.skip_whitespace();
        match self.parse_statement() {
            Err(e) => Err(e),
            Ok(None) => Err(
                self.fail(
                    "A statement was expected here.".to_string(),
                    "Expected a statement after a static keyword, but found none.".to_string(),
                ),
            ),
            Ok(Some(stmt)) => Ok(Some(Statement::Static(Static::new(visibility, stmt)))),
        }
    }

    /// Parses a variable declaration: `var x = 5;`, `const x: int = 5;`,
    /// `pub var x;`. The truth value tells whether the binding is a
    /// constant.
    pub fn parse_variable(&mut self) -> (r: Result<Option<(Variable, bool)>, ParserError>)
        requires
            old(self).inv(),
        ensures
            final(self).follows(old(self)),
            agrees(
                lifted_variable(r),
                grammar::variable(old(self).input(), old(self).at()),
                old(self).at(),
                final(self).at(),
                old(self).body@,
            ),
        decreases old(self).input().left(old(self).at()), 1nat,
    {
        let ghost p = self.at();
        let (k, visibility) = self.behind_visibility(Visibility::Private);
        let is_constant = self.check_keyword(k, KeyWord::Const);
        if !(is_constant || self.check_keyword(k, KeyWord::Var)) {
            return Ok(None);
        }
        self.tokens.peek_inc(k + 1);
        match self.skip_whitespace_err("A variable name was expected but none was found.") {
            Err(e) => {
                return Err(e);
            },
            Ok(_) => {},
        }
        if !self.check(0, TokenType::Identifier) {
            let mut reason = "Unexpected token: \"".to_string();
            reason.append(self.kind_name().as_str());
            reason.append("\"");
            return Err(self.fail(reason, "A name must follow a variable declaration".to_string()));
        }
        let identifier = self.take();
        self.skip_whitespace();
        let type_node: Option<TypeKind> = if self.check(0, TokenType::Colon) {
            self.take();
            self.skip_whitespace();
            match self.parse_type_kind() {
                Err(e) => {
                    return Err(e);
                },
                Ok(None) => {
                    return Err(
                        self.fail(
                            "A type statement is expected here.".to_string(),
                            "Expected type statement to follow a variable declaration with a colon.".to_string(),
                        ),
                    );
                },
                Ok(Some(type_smt)) => Some(type_smt),
            }
        } else {
            None
        };
        self.parse_variable_value(
            Ghost(p),
            text_of(&identifier),
            visibility,
            is_constant,
            type_node,
        )
    }

    /// Parses what follows the name and the type of a variable: an initial
    /// value and a semicolon, or a semicolon alone.
    fn parse_variable_value(
        &mut self,
        Ghost(p): Ghost<int>,
        name: String,
        visibility: Visibility,
        is_constant: bool,
        type_node: Option<TypeKind>,
    ) -> (r: Result<Option<(Variable, bool)>, ParserError>)
        requires
            old(self).inv(),
            0 <= p < old(self).at(),
            visibility == grammar::visibility_or(old(self).input(), p, Visibility::Private),
        ensures
            final(self).follows(old(self)),
            agrees(
                lifted_variable(r),
                grammar::variable_value(
                    old(self).input(),
                    p,
                    old(self).at(),
                    is_constant,
                    name@,
                    match type_node {
                        Some(t) => Some(t@),
                        None => None,
                    },
                ),
                p,
                final(self).at(),
                old(self).body@,
            ),
        decreases old(self).input().left(old(self).at()), 6nat,
    {
        match self.skip_whitespace_err("An operator was expected but none was found.") {
            Err(e) => {
                return Err(e);
            },
            Ok(_) => {},
        }
        if self.check_operator(0, "=") {
            self.take();
            match self.skip_whitespace_err("An expression was expected but none was found.") {
                Err(e) => {
                    return Err(e);
                },
                Ok(_) => {},
            }
            match self.parse_expression() {
                Err(e) => Err(e),
                Ok(None) => Err(
                    self.fail(
                        "An expression is expected here.".to_string(),
                        "Expected an expression to follow a variable declaration.".to_string(),
                    ),
                ),
                Ok(Some(expr)) => {
                    match self.skip_whitespace_err("A semicolon was expected but none was found.") {
                        Err(e) => {
                            return Err(e);
                        },
                        Ok(_) => {},
                    }
                    if self.check(0, TokenType::StatementEnd) {
                        self.take();
                        Ok(
                            Some(
                                (
                                    Variable::new(
                                        name,
                                        type_node,
                                        visibility,
                                        Some(expr),
                                    ),
                                    is_constant,
                                ),
                            ),
                        )
                    } else {
                        Err(
                            self.fail(
                                "A semicolon is expected here.".to_string(),
                                "Expected a semicolon to follow a variable declaration.".to_string(),
                            ),
                        )
                    }
                },
            }
        } else if self.check(0, TokenType::StatementEnd) {
            self.take();
            Ok(Some((Variable::new(name, type_node, visibility, None), is_constant)))
        } else {
            Err(
                self.fail(
                    "A semi-colon is expected here.".to_string(),
                    "Expected an end of statement to follow an uninitialized declaration.".to_string(),
                ),
            )
        }
    }

    /// Parses a visibility modifier and the whitespace that follows it.
    pub fn parse_visibility(&mut self) -> (r: Result<Option<Visibility>, ParserError>)
        requires
            old(self).inv(),
        ensures
            final(self).follows(old(self)),
            agrees(
                match r {
                    Ok(v) => Ok(v),
                    Err(e) => Err(e@),
                },
                grammar::visibility(old(self).input(), old(self).at()),
                old(self).at(),
                final(self).at(),
                old(self).body@,
            ),
    {
        if !self.check_visibility(0) {
            return Ok(None);
        }
        let modifier = self.take();
        let visibility = Visibility::from_keyword(modifier.0.as_keyword());
        match self.skip_whitespace_err(
            "A statement or static keyword was expected after a visibility modifier but none was found.",
        ) {
            Err(e) => Err(e),
            Ok(_) => Ok(Some(visibility)),
        }
    }

    /// Parses a function declaration: `function foo() {}`,
    /// `function foo(x: int, y: int): int {}`.
    pub fn parse_function(&mut self) -> (r: Result<Option<Function>, ParserError>)
        requires
            old(self).inv(),
        ensures
            final(self).follows(old(self)),
            agrees(
                lifted(r),
                grammar::function(old(self).input(), old(self).at()),
                old(self).at(),
                final(self).at(),
                old(self).body@,
            ),
        decreases old(self).input().left(old(self).at()), 1nat,
    {
        proof {
            reveal_with_fuel(grammar::function, 2);
        }
        if !self.check_keyword(0, KeyWord::Function) {
            return Ok(None);
        }
        self.take();
        match self.skip_whitespace_err("A function input list was expected but none was found.") {
            Err(e) => {
                return Err(e);
            },
            Ok(_) => {},
        }
        let visibility = match self.parse_visibility() {
            Err(e) => {
                return Err(e);
            },
            Ok(Some(v)) => v,
            Ok(None) => Visibility::Public,
        };
        let mut name: Option<String> = None;
        if self.check(0, TokenType::Identifier) {
            let n = self.take();
            name = Some(text_of(&n));
        }
        match self.skip_whitespace_err("A function input list was expected but none was found.") {
            Err(e) => {
                return Err(e);
            },
            Ok(_) => {},
        }
        match self.parse_function_inputs() {
            Err(e) => Err(e),
            Ok(None) => Err(
                self.fail(
                    "A function input list is expected here.".to_string(),
                    "Expected a function input list to follow a function declaration.".to_string(),
                ),
            ),
            Ok(Some((inputs, outputs))) => {
                match self.skip_whitespace_err("A block was expected but none was found.") {
                    Err(e) => {
                        return Err(e);
                    },
                    Ok(_) => {},
                }
                match self.parse_block() {
                    Err(e) => Err(e),
                    Ok(None) => Err(
                        self.fail(
                            "A block is expected here.".to_string(),
                            "Expected a block to follow a function declaration.".to_string(),
                        ),
                    ),
                    Ok(Some(block)) => Ok(
                        Some(Function::new(name, inputs, outputs, block, visibility)),
                    ),
                }
            },
        }
    }

    /// Parses the parameters of a function between parentheses, and the
    /// return type behind them if there is one.
    pub fn parse_function_inputs(&mut self) -> (r: Result<
        Option<(Vec<FunctionInput>, Option<TypeKind>)>,
        ParserError,
    >)
        requires
            old(self).inv(),
        ensures
            final(self).follows(old(self)),
            agrees(
                lifted_inputs(r),
                grammar::function_inputs(old(self).input(), old(self).at()),
                old(self).at(),
                final(self).at(),
                old(self).body@,
            ),
    {
        proof {
            reveal(grammar::function_inputs);
            reveal(grammar::input_items);
        }
        let ghost inp = self.input();
        let ghost p = self.at();
        if !self.check(0, TokenType::LeftParenthesis) {
            return Ok(None);
        }
        self.take();
        let mut inputs: Vec<FunctionInput> = Vec::new();
        proof {
            assert(FunctionInput::views(inputs@) =~= Seq::empty());
        }
        loop
            invariant_except_break
                grammar::input_items(inp, self.at(), FunctionInput::views(inputs@))
                    == grammar::input_items(inp, p + 1, Seq::empty()),
            invariant
                self.inv(),
                self.follows(old(self)),
                inp == self.input(),
                inp == old(self).input(),
                p == old(self).at(),
                p < self.at(),
                inp.is(p, TokenType::LeftParenthesis),
            ensures
                grammar::input_items(inp, p + 1, Seq::empty()) == (Listed::Done {
                    values: FunctionInput::views(inputs@),
                    end: self.at(),
                }),
            decreases inp.left(self.at()),
        {
            proof {
                reveal(grammar::function_inputs);
                reveal(grammar::input_items);
            }
            match self.skip_whitespace_err("Function declaration arguments must be closed.") {
                Err(e) => {
                    return Err(e);
                },
                Ok(_) => {},
            }
            if self.check(0, TokenType::RightParenthesis) {
                self.take();
                break ;
            }
            if !self.check(0, TokenType::Identifier) {
                return Err(
                    self.fail(
                        "A name is expected here.".to_string(),
                        "Expected a function parameter name but none was found.".to_string(),
                    ),
                );
            }
            let param_name = self.take();
            match self.skip_whitespace_err(
                "Expected a type statement after a function argument declaration.",
            ) {
                Err(e) => {
                    return Err(e);
                },
                Ok(_) => {},
            }
            if !self.check(0, TokenType::Colon) {
                return Err(
                    self.fail(
                        "A type statement is expected here.".to_string(),
                        "Expected a type statement to follow a function declaration argument.".to_string(),
                    ),
                );
            }
            self.take();
            self.skip_whitespace();
            match self.parse_type_kind() {
                Err(e) => {
                    return Err(e);
                },
                Ok(None) => {
                    return Err(
                        self.fail(
                            "A type statement is expected here.".to_string(),
                            "Expected a type statement to follow a function declaration argument.".to_string(),
                        ),
                    );
                },
                Ok(Some(type_smt)) => {
                    match self.skip_whitespace_err("A comma was expected but none was found.") {
                        Err(e) => {
                            return Err(e);
                        },
                        Ok(_) => {},
                    }
                    let input = FunctionInput::new(text_of(&param_name), Some(type_smt));
                    proof {
                        FunctionInput::lemma_views_push(inputs@, input);
                    }
                    if self.check(0, TokenType::Comma) {
                        self.take();
                        inputs.push(input);
                    } else if self.check(0, TokenType::RightParenthesis) {
                        self.take();
                        inputs.push(input);
                        break ;
                    } else {
                        return Err(
                            self.fail(
                                "A right parenthesis is expected here.".to_string(),
                                "Expected a right parenthesis to follow a function argument declaration.".to_string(),
                            ),
                        );
                    }
                },
            }
        }
        self.skip_whitespace();
        if !self.check(0, TokenType::Colon) {
            return Ok(Some((inputs, None)));
        }
        self.take();
        match self.skip_whitespace_err(
            "Expected a return type statement after a function declaration.",
        ) {
            Err(e) => {
                return Err(e);
            },
            Ok(_) => {},
        }
        match self.parse_type_kind() {
            Err(e) => Err(e),
            Ok(None) => Err(
                self.fail(
                    "Expected a return type statement to follow a function declaration.".to_string(),
                    "A return type is expected here.".to_string(),
                ),
            ),
            Ok(Some(type_smt)) => Ok(Some((inputs, Some(type_smt)))),
        }
    }

    /// Parses a block: the expressions between braces. A block that is not
    /// closed before the input ends is an error.
    pub fn parse_block(&mut self) -> (r: Result<Option<Vec<Expression>>, ParserError>)
        requires
            old(self).inv(),
        ensures
            final(self).follows(old(self)),
            agrees(
                lifted_block(r),
                grammar::block(old(self).input(), old(self).at()),
                old(self).at(),
                final(self).at(),
                old(self).body@,
            ),
        decreases old(self).input().left(old(self).at()), 1nat,
    {
        let ghost inp = self.input();
        let ghost p = self.at();
        if !self.check(0, TokenType::LeftBrace) {
            return Ok(None);
        }
        self.take();
        let mut expressions: Vec<Expression> = Vec::new();
        proof {
            assert(Expression::views(expressions@) =~= Seq::empty());
        }
        loop
            invariant
                self.inv(),
                self.follows(old(self)),
                inp == self.input(),
                inp == old(self).input(),
                p == old(self).at(),
                p < self.at(),
                inp.is(p, TokenType::LeftBrace),
                grammar::block_items(inp, self.at(), Expression::views(expressions@))
                    == grammar::block_items(inp, p + 1, Seq::empty()),
            decreases inp.left(self.at()),
        {
            match self.skip_whitespace_err("Expected a statement to follow a block.") {
                Err(e) => {
                    return Err(e);
                },
                Ok(_) => {},
            }
            match self.parse_expression() {
                Err(e) => {
                    return Err(e);
                },
                Ok(Some(expr)) => {
                    proof {
                        Expression::lemma_views_push(expressions@, expr);
                    }
                    expressions.push(expr);
                },
                Ok(None) => {
                    if self.check(0, TokenType::RightBrace) {
                        self.take();
                        return Ok(Some(expressions));
                    } else if self.check(0, TokenType::StatementEnd) {
                        self.take();
                        proof {
                            Expression::lemma_views_push(expressions@, Expression::EndOfLine);
                        }
                        expressions.push(Expression::EndOfLine);
                    } else if self.check_keyword(0, KeyWord::Return) {
                        self.take();
                        self.skip_whitespace();
                        match self.parse_expression() {
                            Err(e) => {
                                return Err(e);
                            },
                            Ok(Some(expr)) => {
                                let returned = Return::of(expr);
                                proof {
                                    Expression::lemma_views_push(expressions@, returned);
                                }
                                expressions.push(returned);
                            },
                            Ok(None) => {},
                        }
                        if self.check(0, TokenType::StatementEnd) {
                            self.take();
                        } else {
                            return Err(
                                self.fail(
                                    "Expected an expression here.".to_string(),
                                    "Expected an expression to follow a return statement.".to_string(),
                                ),
                            );
                        }
                    } else {
                        return Err(
                            self.fail(
                                "A statement is expected here.".to_string(),
                                "Expected a statement to follow a block.".to_string(),
                            ),
                        );
                    }
                },
            }
        }
    }
}

} // verus!
