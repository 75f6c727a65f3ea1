//! An analysis of the tokens of a source before they are parsed: no two
//! identifiers stand directly next to each other, and every parenthesis
//! that is opened is closed.
use vstd::prelude::*;

use std::ops::Range;

use crate::lexer::token::{token_views, Token, TokenType, TokenView};
use crate::lexer::tokenizer::tokenize;
use crate::text::{decimal, join, joined, lemma_strings_push, push_decimal, strings_view};
use crate::util::TokenStream;

verus! {

/// How a range of bytes is written in a finding: `start..end`.
pub open spec fn range_text(start: usize, end: usize) -> Seq<char> {
    decimal(start as nat) + ".."@ + decimal(end as nat)
}

/// The finding that the identifiers `a` and `b` stand next to each other.
pub open spec fn clash_text(a: TokenView, b: TokenView) -> Seq<char> {
    "Error! Identifiers can never be next to each-other in this context!\n -> The indentifier \""@
        + a.text_or_empty() + "\" at "@ + range_text(a.start, a.end) + " is next to identifier \""@
        + b.text_or_empty() + "\" at "@ + range_text(b.start, b.end)
}

/// The finding that the parenthesis `t` is never closed.
pub open spec fn unclosed_text(t: TokenView) -> Seq<char> {
    "Error! Parenthesis at "@ + range_text(t.start, t.end) + " is never closed!"@
}

/// Whether a token stands at `p` and one of kind `kind`.
pub open spec fn is_kind(tokens: Seq<TokenView>, p: int, kind: TokenType) -> bool {
    0 <= p < tokens.len() && tokens[p].kind == kind
}

/// Whether two identifiers stand at `p` and directly behind it.
pub open spec fn clash(tokens: Seq<TokenView>, p: int) -> bool {
    is_kind(tokens, p, TokenType::Identifier) && is_kind(tokens, p + 1, TokenType::Identifier)
}

/// Whether the parenthesis before `p` stays open to the end of the tokens,
/// where `needs` further parentheses have been opened behind it and not
/// yet closed.
pub open spec fn stays_open(tokens: Seq<TokenView>, p: int, needs: nat) -> bool
    decreases tokens.len() - p,
{
    if !(0 <= p < tokens.len()) {
        true
    } else if tokens[p].kind is RightParenthesis {
        if needs == 0 {
            false
        } else {
            stays_open(tokens, p + 1, (needs - 1) as nat)
        }
    } else if tokens[p].kind is LeftParenthesis {
        stays_open(tokens, p + 1, needs + 1)
    } else {
        stays_open(tokens, p + 1, needs)
    }
}

/// Where the check of the token at `p` looks for a parenthesis: at the
/// second of two identifiers that clash, else at `p`.
pub open spec fn capture_at(tokens: Seq<TokenView>, p: int) -> int {
    if clash(tokens, p) {
        p + 1
    } else {
        p
    }
}

/// The findings of the check of the token at `p`.
pub open spec fn findings_at(tokens: Seq<TokenView>, p: int) -> Seq<Seq<char>> {
    let q = capture_at(tokens, p);
    let first = if clash(tokens, p) {
        seq![clash_text(tokens[p], tokens[p + 1])]
    } else {
        Seq::empty()
    };
    if is_kind(tokens, q, TokenType::LeftParenthesis) && stays_open(tokens, q + 1, 0) {
        first.push(unclosed_text(tokens[q]))
    } else {
        first
    }
}

/// The findings of the checks of the tokens from `p` on.
pub open spec fn findings_from(tokens: Seq<TokenView>, p: int) -> Seq<Seq<char>>
    decreases tokens.len() - p,
{
    if !(0 <= p < tokens.len()) {
        Seq::empty()
    } else {
        findings_at(tokens, p) + findings_from(tokens, capture_at(tokens, p) + 1)
    }
}

/// What the analysis of `tokens` comes to: nothing where there are no
/// findings, else the findings, one on each line.
pub open spec fn verdict(tokens: Seq<TokenView>) -> Result<(), Seq<char>> {
    if findings_from(tokens, 0).len() == 0 {
        Ok(())
    } else {
        Err(joined(findings_from(tokens, 0), "\n"@))
    }
}

/// Appends `start..end` to `s`.
fn push_range(s: &mut String, range: &Range<usize>)
    ensures
        final(s)@ == old(s)@ + range_text(range.start, range.end),
{
    push_decimal(s, range.start);
    s.append("..");
    push_decimal(s, range.end);
    assert(final(s)@ =~= old(s)@ + range_text(range.start, range.end));
}

/// Checks the tokens of a source one by one and collects what it finds.
pub struct Analyzer {
    pub stream: TokenStream,
    pub errors: Vec<String>,
}

impl Analyzer {
    /// The findings so far.
    pub open spec fn findings(&self) -> Seq<Seq<char>> {
        strings_view(self.errors@)
    }

    /// An analyzer at the start of `tokens`, without findings.
    pub fn new(tokens: Vec<Token>) -> (a: Self)
        ensures
            a.stream.all() == tokens@,
            a.stream.consumed() == 0,
            a.findings() == Seq::<Seq<char>>::empty(),
    {
        let a = Self { stream: TokenStream::new(tokens), errors: Vec::new() };
        assert(a.findings() =~= Seq::<Seq<char>>::empty());
        a
    }

    /// Checks the next token, adds what it finds to the findings, and
    /// consumes the token, and with it the first of two identifiers that
    /// clash. Returns `true`.
    pub fn next(&mut self) -> (b: bool)
        requires
            old(self).stream.has(0),
        ensures
            b,
            final(self).stream.all() == old(self).stream.all(),
            final(self).stream.consumed() == capture_at(
                old(self).stream.views(),
                old(self).stream.consumed(),
            ) + 1,
            final(self).findings() == old(self).findings() + findings_at(
                old(self).stream.views(),
                old(self).stream.consumed(),
            ),
    {
        let ghost tokens = self.stream.views();
        let ghost p = self.stream.consumed();
        let ghost before = self.findings();
        proof {
            assert(before + Seq::<Seq<char>>::empty() =~= before);
        }
        match self.check_identifiers() {
            Err(error) => {
                proof {
                    lemma_strings_push(self.errors@, error);
                    assert(before.push(error@) =~= before + seq![error@]);
                }
                self.errors.push(error);
            },
            Ok(_) => {},
        }
        let ghost middle = self.findings();
        match self.check_captures() {
            Err(error) => {
                proof {
                    lemma_strings_push(self.errors@, error);
                    assert(middle.push(error@) =~= before + findings_at(tokens, p));
                }
                self.errors.push(error);
            },
            Ok(_) => {},
        }
        self.stream.peek();
        true
    }

    /// Looks for two identifiers that stand next to each other, and
    /// consumes the first of them.
    fn check_identifiers(&mut self) -> (r: Result<(), String>)
        requires
            old(self).stream.has(0),
        ensures
            final(self).stream.all() == old(self).stream.all(),
            final(self).errors == old(self).errors,
            final(self).stream.consumed() == capture_at(
                old(self).stream.views(),
                old(self).stream.consumed(),
            ),
            final(self).stream.has(0),
            match r {
                Ok(_) => !clash(old(self).stream.views(), old(self).stream.consumed()),
                Err(e) => clash(old(self).stream.views(), old(self).stream.consumed()) && e@
                    == clash_text(
                    old(self).stream.views()[old(self).stream.consumed()],
                    old(self).stream.views()[old(self).stream.consumed() + 1],
                ),
            },
    {
        let second = match self.stream.second() {
            Some(t) => t,
            None => {
                return Ok(());
            },
        };
        let token = match self.stream.first() {
            Some(t) => t,
            None => {
                return Ok(());
            },
        };
        let _ = self.stream.eaten();
        assert(self.stream.views()[self.stream.consumed()] == token@);
        assert(self.stream.views()[self.stream.consumed() + 1] == second@);
        if token.kind().is_identifier() && second.kind().is_identifier() {
            self.stream.peek_inc(1);
            let mut message =
                "Error! Identifiers can never be next to each-other in this context!\n -> The indentifier \"".to_string();
            message.append(crate::parser::generator::text_of(&token).as_str());
            message.append("\" at ");
            push_range(&mut message, &token.1);
            message.append(" is next to identifier \"");
            message.append(crate::parser::generator::text_of(&second).as_str());
            message.append("\" at ");
            push_range(&mut message, &second.1);
            assert(message@ =~= clash_text(token@, second@));
            return Err(message);
        }
        Ok(())
    }

    /// Looks for a parenthesis at the next token that is never closed.
    fn check_captures(&self) -> (r: Result<(), String>)
        requires
            self.stream.has(0),
        ensures
            match r {
                Ok(_) => !(is_kind(
                    self.stream.views(),
                    self.stream.consumed(),
                    TokenType::LeftParenthesis,
                ) && stays_open(self.stream.views(), self.stream.consumed() + 1, 0)),
                Err(e) => is_kind(
                    self.stream.views(),
                    self.stream.consumed(),
                    TokenType::LeftParenthesis,
                ) && stays_open(self.stream.views(), self.stream.consumed() + 1, 0) && e@
                    == unclosed_text(self.stream.views()[self.stream.consumed()]),
            },
    {
        let ghost tokens = self.stream.views();
        let ghost p = self.stream.consumed();
        let token = match self.stream.nth_ref(0) {
            Some(t) => t,
            None => {
                return Ok(());
            },
        };
        if !token.0.is_left_parenthesis() {
            return Ok(());
        }
        let mut needs: usize = 0;
        let mut k: usize = 1;
        loop
            invariant
                tokens == self.stream.views(),
                p == self.stream.consumed(),
                self.stream.has(0),
                *token == self.stream.ahead(0),
                token.0 is LeftParenthesis,
                1 <= k,
                p + k <= tokens.len() <= usize::MAX,
                needs < k,
                stays_open(tokens, p + 1, 0) == stays_open(tokens, p + k, needs as nat),
            decreases tokens.len() - p - k,
        {
            match self.stream.nth_ref(k) {
                None => {
                    let mut message = "Error! Parenthesis at ".to_string();
                    push_range(&mut message, &token.1);
                    message.append(" is never closed!");
                    assert(message@ =~= unclosed_text(token@));
                    return Err(message);
                },
                Some(t) => {
                    if t.0.is_right_parenthesis() {
                        if needs == 0 {
                            return Ok(());
                        }
                        needs -= 1;
                    } else if t.0.is_left_parenthesis() {
                        needs += 1;
                    }
                    k += 1;
                },
            }
        }
    }

    /// The findings so far, one on each line; nothing where there are
    /// none.
    pub fn result(&self) -> (r: Result<(), String>)
        ensures
            match r {
                Ok(_) => self.findings().len() == 0,
                Err(e) => self.findings().len() > 0 && e@ == joined(self.findings(), "\n"@),
            },
    {
        if self.errors.len() > 0 {
            Err(join(&self.errors, "\n"))
        } else {
            Ok(())
        }
    }
}

/// Checks the tokens of `source`.
pub fn analyze_source(source: &str) -> (r: Result<(), String>)
    ensures
        match r {
            Ok(_) => verdict(crate::lexer::rules::lex(source@)) is Ok,
            Err(e) => verdict(crate::lexer::rules::lex(source@)) == Err::<(), Seq<char>>(e@),
        },
{
    analyze(tokenize(source))
}

/// Checks `tokens`: nothing where the check finds nothing, else what it
/// finds, one finding on each line.
pub fn analyze(tokens: Vec<Token>) -> (r: Result<(), String>)
    ensures
        match r {
            Ok(_) => verdict(token_views(tokens@)) is Ok,
            Err(e) => verdict(token_views(tokens@)) == Err::<(), Seq<char>>(e@),
        },
{
    let ghost all = token_views(tokens@);
    let mut analyzer = Analyzer::new(tokens);
    proof {
        assert(analyzer.findings() + findings_from(all, 0) =~= findings_from(all, 0));
    }
    while !analyzer.stream.is_eof()
        invariant
            analyzer.stream.views() == all,
            0 <= analyzer.stream.consumed() <= all.len(),
            analyzer.findings() + findings_from(all, analyzer.stream.consumed()) == findings_from(
                all,
                0,
            ),
        decreases all.len() - analyzer.stream.consumed(),
    {
        let ghost p = analyzer.stream.consumed();
        let ghost before = analyzer.findings();
        analyzer.next();
        proof {
            let rest = findings_from(all, capture_at(all, p) + 1);
            assert((before + findings_at(all, p)) + rest =~= before + (findings_at(all, p) + rest));
        }
        let _ = analyzer.stream.eaten();
    }
    proof {
        assert(analyzer.findings() + Seq::<Seq<char>>::empty() =~= analyzer.findings());
    }
    analyzer.result()
}

} // verus!
