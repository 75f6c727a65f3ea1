//! The recursive-descent parser. Each production of the grammar is a
//! function that does what the grammar says of it.
use vstd::prelude::*;

use std::ops::Range;

use super::context::{Context, SourceOrigin};
use super::grammar;
use super::grammar::{Fault, Input, Listed, Parsed, Program};
use super::{ParserError, ParserErrorView};
use crate::ast::ops::AnyOperation;
use crate::ast::types::{TypeKind, TypeKindView, TypeParam, TypeParamView, TypeReference, TypeUnion};
use crate::ast::{
    Array, AstBody, AstBodyView, Call, Class, ClassAllowedStatement, ClassBody, ClassProperty,
    Expression, ExpressionView, Function, FunctionInput, FunctionInputView, Literal,
    MemberListNode, MemberLookup, Namespace, NewCall, Node, NodeKind, Object, ObjectProperty,
    Operation, Path, Return, Statement, Static, Variable, VariableView, Visibility,
};
use crate::lexer::keyword::KeyWord;
use crate::lexer::token::{Token, TokenType, TokenView};
use crate::text::{str_eq, strings_view};
use crate::util::TokenStream;


pub mod classes;
pub mod expressions;
pub mod statements;
pub mod types;

verus! {


/// The smallest range that covers every range of `ranges`: from the least
/// start to the greatest end. The range of no ranges is `0..0`.
pub fn combine_ranges(ranges: Vec<Range<usize>>) -> (r: Range<usize>)
    ensures
        ranges@.len() == 0 ==> r.start == 0 && r.end == 0,
        forall|i: int| 0 <= i < ranges@.len() ==> r.start <= ranges@[i].start && ranges@[i].end <= r.end,
        ranges@.len() > 0 ==> exists|i: int| 0 <= i < ranges@.len() && r.start == ranges@[i].start,
        ranges@.len() > 0 ==> exists|i: int| 0 <= i < ranges@.len() && r.end == ranges@[i].end,
{
    if ranges.len() == 0 {
        return 0..0;
    }
    let mut start: usize = ranges[0].start;
    let mut end: usize = ranges[0].end;
    let mut k: usize = 1;
    while k < ranges.len()
        invariant
            1 <= k <= ranges.len(),
            forall|i: int| 0 <= i < k ==> start <= ranges@[i].start && ranges@[i].end <= end,
            exists|i: int| 0 <= i < k && start == ranges@[i].start,
            exists|i: int| 0 <= i < k && end == ranges@[i].end,
        decreases ranges.len() - k,
    {
        if ranges[k].start < start {
            start = ranges[k].start;
        }
        if ranges[k].end > end {
            end = ranges[k].end;
        }
        k += 1;
    }
    start..end
}

/// The text of a token, empty where it has none.
pub fn text_of(token: &Token) -> (s: String)
    ensures
        s@ == token@.text_or_empty(),
{
    match &token.2 {
        Some(s) => s.clone(),
        None => String::new(),
    }
}

/// The views of what a production returns.
pub open spec fn lifted<T: View>(r: Result<Option<T>, ParserError>) -> Result<
    Option<T::V>,
    ParserErrorView,
> {
    match r {
        Ok(Some(x)) => Ok(Some(x@)),
        Ok(None) => Ok(None),
        Err(e) => Err(e@),
    }
}

/// Whether a production that began at `before` and ended at `after`, and
/// returned `got`, did what the grammar says: it returned the value and
/// consumed the tokens of a match, returned nothing and consumed nothing
/// where there is no match, and returned the fault, with the program parsed
/// so far, where there is a fault.
pub open spec fn agrees<V>(
    got: Result<Option<V>, ParserErrorView>,
    want: Parsed<V>,
    before: int,
    after: int,
    body: AstBodyView,
) -> bool {
    match want {
        Parsed::Match { value, rest } => got == Ok::<Option<V>, ParserErrorView>(Some(value))
            && after == before + 1 + rest,
        Parsed::NoMatch => got == Ok::<Option<V>, ParserErrorView>(None) && after == before,
        Parsed::Fault { fault } => got == Err::<Option<V>, ParserErrorView>(
            ParserErrorView { fault, ast: body },
        ),
    }
}

/// The parser of one source: the program parsed so far, the tokens of the
/// source, and the bookkeeping of the source.
pub struct AstGenerator {
    pub body: AstBody,
    pub tokens: TokenStream,
    pub context: Context,
}

impl AstGenerator {
    /// What the parser reads.
    pub open spec fn input(&self) -> Input {
        Input {
            tokens: self.tokens.views(),
            end: self.context@.source_end() as int,
            class_id: (self.context@.local_id + 1) as u64,
        }
    }

    /// The place in the input at which the parser stands.
    pub open spec fn at(&self) -> int {
        self.tokens.consumed()
    }

    /// The parser can give out a further id.
    pub open spec fn inv(&self) -> bool {
        self.context@.local_id < u64::MAX
    }

    /// Whether `self` is the parser `before` later in the same input: with
    /// the same tokens, the same bookkeeping and the same program.
    pub open spec fn follows(&self, before: &AstGenerator) -> bool {
        &&& self.tokens.all() == before.tokens.all()
        &&& self.context@ == before.context@
        &&& self.body@ == before.body@
        &&& self.inv() == before.inv()
    }

    /// A parser for the source `source` in the context with the id `id`,
    /// with no tokens yet and an empty program.
    pub fn new(source: SourceOrigin, id: u64) -> (g: Self)
        ensures
            g.body@ == (AstBodyView { flags: 0, program: Seq::empty() }),
            g.tokens.all() == Seq::<Token>::empty(),
            g.tokens.consumed() == 0,
            g.context@ == Context::new_view(source@, id),
            g.inv(),
    {
        AstGenerator {
            body: AstBody::new(),
            tokens: TokenStream::new(Vec::new()),
            context: Context::new(source, id),
        }
    }

    // -----------------------------------------------------------------------
    // Looking ahead and consuming
    // -----------------------------------------------------------------------
    /// Whether a token of kind `kind` stands `n` places ahead.
    pub(crate) fn check(&self, n: usize, kind: TokenType) -> (b: bool)
        ensures
            b == self.input().is(self.at() + n, kind),
            0 <= self.at() <= self.input().tokens.len() <= usize::MAX,
    {
        match self.tokens.nth_ref(n) {
            Some(t) => t.0 == kind,
            None => false,
        }
    }

    /// Whether the keyword `keyword` stands `n` places ahead.
    pub(crate) fn check_keyword(&self, n: usize, keyword: KeyWord) -> (b: bool)
        ensures
            b == self.input().is_keyword(self.at() + n, keyword),
            0 <= self.at() <= self.input().tokens.len() <= usize::MAX,
    {
        self.check(n, TokenType::KeyWord(keyword))
    }

    /// Whether a visibility modifier stands `n` places ahead.
    pub(crate) fn check_visibility(&self, n: usize) -> (b: bool)
        ensures
            b == self.input().is_visibility(self.at() + n),
            0 <= self.at() <= self.input().tokens.len(),
    {
        match self.tokens.nth_ref(n) {
            Some(t) => t.0.is_keyword() && t.0.as_keyword().is_visibility(),
            None => false,
        }
    }

    /// Whether the operator spelled `op` stands `n` places ahead.
    pub(crate) fn check_operator(&self, n: usize, op: &str) -> (b: bool)
        ensures
            b == self.input().is_operator(self.at() + n, op@),
            0 <= self.at() <= self.input().tokens.len(),
    {
        match self.tokens.nth_ref(n) {
            Some(t) => {
                t.0.is_operator() && match &t.2 {
                    Some(s) => str_eq(s.as_str(), op),
                    None => false,
                }
            },
            None => false,
        }
    }

    /// Whether a token that can be read as a literal stands next.
    pub(crate) fn check_literal(&self) -> (b: bool)
        ensures
            b == self.input().is_literal(self.at()),
            0 <= self.at() <= self.input().tokens.len(),
    {
        match self.tokens.nth_ref(0) {
            Some(t) => t.0.is_identifier() || t.0.is_number() || t.0.is_string()
                || t.0.is_boolean(),
            None => false,
        }
    }

    /// Consumes the next token and returns it.
    pub(crate) fn take(&mut self) -> (t: Token)
        requires
            old(self).input().has(old(self).at()),
        ensures
            final(self).follows(old(self)),
            final(self).at() == old(self).at() + 1,
            t@ == old(self).input().tokens[old(self).at()],
    {
        match self.tokens.peek() {
            Some(t) => t,
            None => Token(TokenType::Whitespace, 0..0, None),
        }
    }

    /// Consumes the next token if it is of kind `kind`.
    pub(crate) fn eat(&mut self, kind: TokenType) -> (r: Option<Token>)
        ensures
            final(self).follows(old(self)),
            match r {
                Some(t) => old(self).input().is(old(self).at(), kind) && final(self).at() == old(
                    self,
                ).at() + 1 && t@ == old(self).input().tokens[old(self).at()],
                None => !old(self).input().is(old(self).at(), kind) && final(self).at() == old(
                    self,
                ).at(),
            },
    {
        if self.check(0, kind) {
            Some(self.take())
        } else {
            None
        }
    }

    /// The number of whitespace and comment tokens that follow each other
    /// from `from` places ahead on.
    pub(crate) fn blanks_ahead(&self, from: usize) -> (n: usize)
        ensures
            n == self.input().blanks(self.at() + from),
            n == 0 || self.at() + from + n <= self.input().tokens.len(),
            0 <= self.at() <= self.input().tokens.len(),
    {
        let ghost inp = self.input();
        let ghost start = self.at() + from;
        if self.tokens.nth_ref(from).is_none() {
            return 0;
        }
        let mut n: usize = 0;
        loop
            invariant
                inp == self.input(),
                start == self.at() + from,
                0 <= self.at(),
                inp.blanks(start) == n + inp.blanks(start + n),
                start + n <= inp.tokens.len() <= usize::MAX,
            decreases inp.left(start + n),
        {
            match self.tokens.nth_ref(from + n) {
                Some(t) => {
                    if t.0.is_whitespace() || t.0.is_comment() {
                        n += 1;
                    } else {
                        return n;
                    }
                },
                None => {
                    return n;
                },
            }
        }
    }

    /// Consumes whitespace and comments up to the next token that is
    /// neither.
    pub(crate) fn skip_whitespace(&mut self)
        ensures
            final(self).follows(old(self)),
            final(self).at() == old(self).input().skip(old(self).at()),
    {
        let n = self.blanks_ahead(0);
        self.tokens.peek_inc(n);
    }

    /// Consumes whitespace and comments up to the next token that is
    /// neither. Where the input ends before such a token, that is the fault
    /// `err`.
    pub(crate) fn skip_whitespace_err(&mut self, err: &str) -> (r: Result<(), ParserError>)
        ensures
            final(self).follows(old(self)),
            match r {
                Ok(_) => !old(self).input().runs_out(old(self).at()) && final(self).at() == old(
                    self,
                ).input().skip(old(self).at()),
                Err(e) => old(self).input().runs_out(old(self).at()) && e@ == (ParserErrorView {
                    fault: old(self).input().exhausted(old(self).at(), err@),
                    ast: old(self).body@,
                }),
            },
    {
        let start = self.here().start;
        let n = self.blanks_ahead(0);
        self.tokens.peek_inc(n);
        if self.tokens.is_eof() {
            Err(
                ParserError::new(
                    err.to_string(),
                    "Whitespace terminated the code while parsing an expression or statement. Make sure that every block is closed.".to_string(),
                    start..self.context.source_end(),
                    self.body.clone(),
                    None,
                ),
            )
        } else {
            Ok(())
        }
    }

    /// The range of the next token, or the empty range at the end of the
    /// source where the input has ended.
    pub(crate) fn here(&self) -> (r: Range<usize>)
        ensures
            r.start == self.input().start_at(self.at()),
            r.end == self.input().end_at(self.at()),
    {
        match self.tokens.nth_ref(0) {
            Some(t) => t.1.start..t.1.end,
            None => {
                let end = self.context.source_end();
                end..end
            },
        }
    }

    /// The name of the kind of the next token.
    pub(crate) fn kind_name(&self) -> (s: String)
        ensures
            s@ == self.input().kind_name(self.at()),
    {
        match self.tokens.nth_ref(0) {
            Some(t) => t.0.to_string(),
            None => "EndOfFile".to_string(),
        }
    }

    /// The error for a fault at the next token.
    pub(crate) fn fail(&self, reason: String, message: String) -> (e: ParserError)
        ensures
            e@ == (ParserErrorView {
                fault: self.input().fault(self.at(), reason@, message@),
                ast: self.body@,
            }),
    {
        ParserError::new(reason, message, self.here(), self.body.clone(), None)
    }

    /// The error for a fault that reaches from the range `from` to the next
    /// token.
    pub(crate) fn fail_from(
        &self,
        from: Range<usize>,
        reason: String,
        message: String,
        extra: Option<String>,
    ) -> (e: ParserError)
        ensures
            e@ == (ParserErrorView {
                fault: Fault {
                    reason: reason@,
                    message: message@,
                    extra: match extra {
                        Some(s) => Some(s@),
                        None => None,
                    },
                    start: grammar::least(from.start as int, self.input().start_at(self.at())),
                    end: grammar::greatest(from.end as int, self.input().end_at(self.at())),
                },
                ast: self.body@,
            }),
    {
        let here = self.here();
        let start = if from.start <= here.start {
            from.start
        } else {
            here.start
        };
        let end = if from.end >= here.end {
            from.end
        } else {
            here.end
        };
        ParserError::new(reason, message, start..end, self.body.clone(), extra)
    }

    // -----------------------------------------------------------------------
    // Programs
    // -----------------------------------------------------------------------
    /// What [`AstGenerator::parse`] does to the parser `before` that leaves
    /// the parser `after` and returns `r`. At the end of the input nothing
    /// happens. A node that stands at the next token is appended to the
    /// program and its tokens are consumed. A whitespace token that begins
    /// no node is consumed. Anything else is an error.
    pub open spec fn parsed_one(
        before: &AstGenerator,
        after: &AstGenerator,
        r: Result<(), ParserError>,
    ) -> bool {
        let inp = before.input();
        let p = before.at();
        if !inp.has(p) {
            r is Ok && after.at() == p && after.body@ == before.body@
        } else {
            match grammar::node(inp, p) {
                Parsed::Match { value, rest } => r is Ok && after.at() == p + 1 + rest
                    && after.body@ == (AstBodyView {
                    program: before.body@.program.push(value),
                    ..before.body@
                }),
                Parsed::Fault { fault } => r is Err && r->Err_0@ == (ParserErrorView {
                    fault,
                    ast: before.body@,
                }),
                Parsed::NoMatch => if inp.tokens[p].kind is Whitespace {
                    r is Ok && after.at() == p + 1 && after.body@ == before.body@
                } else {
                    r is Err && r->Err_0@ == (ParserErrorView {
                        fault: grammar::unexpected(inp, p),
                        ast: before.body@,
                    })
                },
            }
        }
    }

    /// Parses one top-level unit and appends it to the program.
    pub fn parse(&mut self) -> (r: Result<(), ParserError>)
        requires
            old(self).inv(),
        ensures
            final(self).tokens.all() == old(self).tokens.all(),
            final(self).context@ == old(self).context@,
            final(self).inv(),
            Self::parsed_one(old(self), final(self), r),
    {
        if self.tokens.is_eof() {
            return Ok(());
        }
        let ghost inp = self.input();
        let ghost p = self.at();
        let start = self.here();
        match self.parse_statement() {
            Err(e) => {
                return Err(e);
            },
            Ok(Some(stmt)) => {
                let end = self.last_range();
                let node = Node::new(NodeKind::from_statement(stmt), start, end);
                self.body.push_node(node);
                return Ok(());
            },
            Ok(None) => {},
        }
        match self.parse_expression() {
            Err(e) => {
                return Err(e);
            },
            Ok(Some(left)) => {
                let end = self.last_range();
                let node = Node::new(NodeKind::from_expression(left), start, end);
                self.body.push_node(node);
                return Ok(());
            },
            Ok(None) => {},
        }
        if self.check(0, TokenType::Whitespace) {
            self.take();
            return Ok(());
        }
        Err(
            self.fail(
                "Missing a valid statement or expression in global scope.".to_string(),
                "Unable to proceed parsing. A known token was unexpected at this time.".to_string(),
            ),
        )
    }

    /// The range of the token consumed last.
    fn last_range(&self) -> (r: Range<usize>)
        requires
            0 < self.at(),
        ensures
            0 < self.at() <= self.input().tokens.len(),
            r.start == self.input().tokens[self.at() - 1].start,
            r.end == self.input().tokens[self.at() - 1].end,
    {
        let _ = self.tokens.eaten();
        match self.tokens.prev() {
            Some(t) => t.range(),
            None => 0..0,
        }
    }

    /// What parsing the tokens `tokens` from their mark on comes to for the
    /// parser `before`.
    pub open spec fn outcome(before: &AstGenerator, tokens: &TokenStream) -> Program {
        grammar::program(
            Input { tokens: tokens.views(), ..before.input() },
            tokens.consumed(),
            Seq::empty(),
        )
    }

    /// Parses the tokens `tokens` to the end and returns the program: the
    /// nodes that the parser held before, followed by the nodes of the
    /// tokens. On an error the nodes parsed before it are returned with it.
    pub fn begin_parse(&mut self, tokens: TokenStream) -> (r: Result<AstBody, ParserError>)
        requires
            old(self).inv(),
        ensures
            final(self).tokens.all() == tokens.all(),
            final(self).context@ == old(self).context@,
            match Self::outcome(old(self), &tokens) {
                Program::Done { nodes } => r is Ok && r->Ok_0@ == (AstBodyView {
                    program: old(self).body@.program + nodes,
                    ..old(self).body@
                }) && final(self).body@ == r->Ok_0@ && !final(self).tokens.has(0),
                Program::Fault { fault, nodes } => r is Err && r->Err_0@ == (ParserErrorView {
                    fault,
                    ast: AstBodyView {
                        program: old(self).body@.program + nodes,
                        ..old(self).body@
                    },
                }),
            },
    {
        self.tokens = tokens;
        let _ = self.tokens.eaten();
        let ghost inp = self.input();
        let ghost start = self.at();
        let ghost mut acc: Seq<crate::ast::NodeView> = Seq::empty();
        proof {
            assert(self.body@.program + acc =~= self.body@.program);
        }
        while !self.tokens.is_eof()
            invariant
                self.inv(),
                inp == self.input(),
                inp == (Input { tokens: tokens.views(), ..old(self).input() }),
                start == tokens.consumed(),
                self.tokens.all() == tokens.all(),
                self.context@ == old(self).context@,
                self.body@ == (AstBodyView {
                    program: old(self).body@.program + acc,
                    ..old(self).body@
                }),
                grammar::program(inp, self.at(), acc) == grammar::program(inp, start, Seq::empty()),
            decreases inp.left(self.at()),
        {
            proof {
                grammar::lemma_skip(inp, self.at());
            }
            self.skip_whitespace();
            let ghost before = self.at();
            match self.parse() {
                Err(e) => {
                    return Err(e);
                },
                Ok(_) => {
                    proof {
                        if inp.has(before) {
                            let value = grammar::node(inp, before)->Match_value;
                            assert((old(self).body@.program + acc).push(value) =~= old(
                                self,
                            ).body@.program + acc.push(value));
                            acc = acc.push(value);
                        }
                    }
                },
            }
        }
        Ok(self.body.clone())
    }
}

/// The views of what the production of interface names returns.
pub open spec fn lifted_names(r: Result<Option<Vec<String>>, ParserError>) -> Result<
    Option<Seq<Seq<char>>>,
    ParserErrorView,
> {
    match r {
        Ok(Some(x)) => Ok(Some(strings_view(x@))),
        Ok(None) => Ok(None),
        Err(e) => Err(e@),
    }
}

/// The views of what the production of variables returns.
pub open spec fn lifted_variable(r: Result<Option<(Variable, bool)>, ParserError>) -> Result<
    Option<(VariableView, bool)>,
    ParserErrorView,
> {
    match r {
        Ok(Some(x)) => Ok(Some((x.0@, x.1))),
        Ok(None) => Ok(None),
        Err(e) => Err(e@),
    }
}

/// The views of what the production of function parameters returns.
pub open spec fn lifted_inputs(
    r: Result<Option<(Vec<FunctionInput>, Option<TypeKind>)>, ParserError>,
) -> Result<Option<(Seq<FunctionInputView>, Option<TypeKindView>)>, ParserErrorView> {
    match r {
        Ok(Some(x)) => Ok(
            Some(
                (
                    FunctionInput::views(x.0@),
                    match x.1 {
                        Some(t) => Some(t@),
                        None => None,
                    },
                ),
            ),
        ),
        Ok(None) => Ok(None),
        Err(e) => Err(e@),
    }
}

/// The views of what a production returns that gives a list of expressions.
pub open spec fn lifted_block(r: Result<Option<Vec<Expression>>, ParserError>) -> Result<
    Option<Seq<ExpressionView>>,
    ParserErrorView,
> {
    match r {
        Ok(Some(x)) => Ok(Some(Expression::views(x@))),
        Ok(None) => Ok(None),
        Err(e) => Err(e@),
    }
}

/// The views of what the production of type arguments returns.
pub open spec fn lifted_params(r: Result<Option<Vec<TypeParam>>, ParserError>) -> Result<
    Option<Seq<TypeParamView>>,
    ParserErrorView,
> {
    match r {
        Ok(Some(x)) => Ok(Some(TypeParam::views(x@))),
        Ok(None) => Ok(None),
        Err(e) => Err(e@),
    }
}

} // verus!
