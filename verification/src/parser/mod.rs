//! The parser: from tokens to a syntax tree, with errors as values.
use vstd::prelude::*;

use std::ops::Range;

use crate::ast::{AstBody, AstBodyView};
use crate::lexer::analysis::{analyze, verdict};
use crate::lexer::rules::lex;
use crate::lexer::token::{clone_tokens, token_views, Token, TokenView};
use crate::lexer::tokenizer::tokenize;
use crate::options::CompilerOptions;
use crate::report::{Report, ReportKind, ReportView, SnippetView};
use crate::text::byte_len;
use crate::util::source::SourceBuffer;
use crate::util::TokenStream;

pub mod context;
pub mod generator;
pub mod grammar;

use self::context::{ContextStore, ContextView, SourceOrigin};
use self::generator::AstGenerator;
use self::grammar::{Fault, Input, Program};

verus! {

/// Why a source could not be parsed, with the part of the program that was
/// parsed before the error.
#[derive(Debug)]
pub struct ParserError {
    /// A short statement of what is wrong.
    pub reason: String,
    /// A longer explanation.
    pub message: String,
    /// A hint to show beside the source, if there is one.
    pub extra: Option<String>,
    /// The bytes of the source that are at fault.
    pub location: Range<usize>,
    /// The nodes that were parsed before the error.
    pub ast: AstBody,
}

/// The mathematical value of a [`ParserError`].
pub ghost struct ParserErrorView {
    pub fault: Fault,
    pub ast: AstBodyView,
}

impl View for ParserError {
    type V = ParserErrorView;

    open spec fn view(&self) -> ParserErrorView {
        ParserErrorView {
            fault: Fault {
                reason: self.reason@,
                message: self.message@,
                extra: match self.extra {
                    Some(s) => Some(s@),
                    None => None,
                },
                start: self.location.start as int,
                end: self.location.end as int,
            },
            ast: self.ast@,
        }
    }
}

impl Clone for ParserError {
    fn clone(&self) -> (r: Self)
        ensures
            r@ == self@,
    {
        ParserError {
            reason: self.reason.clone(),
            message: self.message.clone(),
            extra: match &self.extra {
                Some(s) => Some(s.clone()),
                None => None,
            },
            location: self.location.start..self.location.end,
            ast: self.ast.clone(),
        }
    }
}

impl ParserError {
    pub fn new(
        reason: String,
        message: String,
        location: Range<usize>,
        ast: AstBody,
        extra: Option<String>,
    ) -> (e: Self)
        ensures
            e == (ParserError { reason, message, extra, location, ast }),
    {
        ParserError { reason, message, extra, location, ast }
    }

    /// Sets the hint that is shown beside the source.
    pub fn set_inline(&mut self, inline: String)
        ensures
            *final(self) == (ParserError { extra: Some(inline), ..*old(self) }),
    {
        self.extra = Some(inline);
    }

    /// The report of this error for the source `source`, known by the name
    /// `name`: an error with the reason as its message and one snippet,
    /// which underlines the bytes at fault and shows the message, with the
    /// hint behind the underline if there is one.
    pub fn to_report(&self, name: String, source: String) -> (r: Report)
        ensures
            r@ == (ReportView {
                code: 0,
                message: self@.fault.reason,
                name: name@,
                source: source@,
                snippets: seq![
                    SnippetView {
                        message: self@.fault.message,
                        inline: match self@.fault.extra {
                            Some(s) => s,
                            None => Seq::empty(),
                        },
                        source: source@,
                        multiline: false,
                        start: self.location.start,
                        end: self.location.end,
                    },
                ],
                kind: ReportKind::Error,
            }),
    {
        let r = Report::new().set_source(SourceBuffer::new(source)).set_name(name).set_message(
            self.reason.clone(),
        ).make_snippet(
            self.location.start..self.location.end,
            self.message.clone(),
            match &self.extra {
                Some(s) => Some(s.clone()),
                None => None,
            },
        );
        proof {
            assert(r@.snippets =~= seq![r@.snippets[0]]);
        }
        r
    }
}


/// Parses sources, each in a context of its own.
pub struct Parser {
    options: CompilerOptions,
    contexts: ContextStore,
}

/// The fault of a source whose tokens do not pass the check before
/// parsing, where the check found `findings`.
pub open spec fn check_fault(findings: Seq<char>) -> Fault {
    Fault {
        reason: "Error running checks."@,
        message: findings,
        extra: None,
        start: 0,
        end: 0,
    }
}

/// What parsing the script `source` comes to, with or without the check of
/// its tokens before parsing: the program, or a fault with the nodes that
/// were parsed before it.
pub open spec fn script(source: Seq<char>, checked: bool) -> Program {
    let tokens = lex(source);
    if checked && verdict(tokens) is Err {
        Program::Fault { fault: check_fault(verdict(tokens)->Err_0), nodes: Seq::empty() }
    } else {
        grammar::program(
            Input { tokens, end: byte_len(source) as int, class_id: 1 },
            0,
            Seq::empty(),
        )
    }
}

/// The context in which the script `source`, known by the name `name`, is
/// parsed, under the id `id`.
pub open spec fn script_context(name: Seq<char>, source: Seq<char>, id: u64) -> ContextView {
    ContextView {
        source: Some(
            crate::parser::context::SourceOriginView {
                path: None,
                name: Some(name),
                contents: Some(source),
                is_virtual: true,
            },
        ),
        body: AstBodyView { flags: 0, program: Seq::empty() },
        origin: id,
        local_id: 0,
    }
}

impl Parser {
    /// Whether the tokens of a source are checked before they are parsed.
    pub closed spec fn checks(&self) -> bool {
        self.options.semantic_checks
    }

    /// The id that the context of the last script was given.
    pub closed spec fn last_context(&self) -> u64 {
        self.contexts.last_id()
    }

    /// The contexts that the parser holds, by their ids.
    pub closed spec fn contexts(&self) -> Map<u64, ContextView> {
        self.contexts.entries()
    }

    /// A parser with the options `options`, without contexts.
    pub fn new(options: CompilerOptions) -> (p: Self)
        ensures
            p.checks() == options.semantic_checks,
            p.last_context() == 0,
            p.contexts() == Map::<u64, ContextView>::empty(),
    {
        Parser { options, contexts: ContextStore::new() }
    }

    /// Whether the parser can give a further script a context.
    pub fn has_room(&self) -> (b: bool)
        ensures
            b == (self.last_context() < u64::MAX),
    {
        self.contexts.has_room()
    }

    /// Parses the script `source`, known by the name `name`, in a context of
    /// its own. The context is forgotten when the script has been parsed,
    /// and kept where parsing fails.
    pub fn parse_script(&mut self, name: String, source: String) -> (r: Result<
        AstBody,
        ParserError,
    >)
        requires
            old(self).last_context() < u64::MAX,
        ensures
            final(self).checks() == old(self).checks(),
            final(self).last_context() == old(self).last_context() + 1,
            match script(source@, old(self).checks()) {
                Program::Done { nodes } => r is Ok && r->Ok_0@ == (AstBodyView {
                    flags: 0,
                    program: nodes,
                }) && final(self).contexts() == old(self).contexts().remove(
                    final(self).last_context(),
                ),
                Program::Fault { fault, nodes } => r is Err && r->Err_0@ == (ParserErrorView {
                    fault,
                    ast: AstBodyView { flags: 0, program: nodes },
                }) && final(self).contexts() == old(self).contexts().insert(
                    final(self).last_context(),
                    script_context(name@, source@, final(self).last_context()),
                ),
            },
    {
        let source_origin = SourceOrigin::new_virtual(name, source.clone());
        let mut ast_generator = AstGenerator::new(source_origin, self.contexts.next_context_id());
        self.contexts.add_context(&mut ast_generator.context);
        let tokens = tokenize(source.as_str());
        match self.do_options(&tokens) {
            Err(findings) => {
                return Err(
                    ParserError::new(
                        "Error running checks.".to_string(),
                        findings,
                        0..0,
                        AstBody::new(),
                        None,
                    ),
                );
            },
            Ok(_) => {},
        }
        let stream = TokenStream::new(tokens);
        proof {
            assert(Seq::<crate::ast::NodeView>::empty() + Seq::<crate::ast::NodeView>::empty()
                =~= Seq::<crate::ast::NodeView>::empty());
        }
        let ast = match ast_generator.begin_parse(stream) {
            Err(e) => {
                proof {
                    let nodes = e@.ast.program;
                    assert(Seq::<crate::ast::NodeView>::empty() + nodes =~= nodes);
                }
                return Err(e);
            },
            Ok(ast) => ast,
        };
        proof {
            let nodes = ast@.program;
            assert(Seq::<crate::ast::NodeView>::empty() + nodes =~= nodes);
        }
        self.contexts.remove_context(ast_generator.context.origin());
        Ok(ast)
    }

    /// Checks `tokens` before they are parsed, if the options ask for it.
    pub fn do_options(&self, tokens: &Vec<Token>) -> (r: Result<(), String>)
        ensures
            match r {
                Ok(_) => !(self.checks() && verdict(token_views(tokens@)) is Err),
                Err(e) => self.checks() && verdict(token_views(tokens@)) == Err::<(), Seq<char>>(
                    e@,
                ),
            },
    {
        if self.options.semantic_checks {
            analyze(clone_tokens(tokens))
        } else {
            Ok(())
        }
    }
}

} // verus!
