//! The tokenizer: from the characters of a source to its tokens.
use vstd::prelude::*;

use crate::lexer::keyword::{lemma_keyword_round_trip, KeyWord, MAX_KEYWORD_LENGTH};
use crate::lexer::pos::cursor::{char_at, Cursor};
use crate::lexer::rules;
use crate::lexer::rules::{CharClass, Lexeme};
use crate::lexer::token::{token_views, Token, TokenType, TokenView};
use crate::text::{is_digit, is_letter, is_whitespace};

verus! {

/// Whether a rule that was tried on the cursor `before`, left the cursor
/// `after` and returned `text` did what `want` says: consumed the token and
/// returned its text where the rule matches, and did nothing where it does
/// not.
pub open spec fn took(
    before: &Cursor,
    after: &Cursor,
    text: Option<String>,
    want: Option<Lexeme>,
) -> bool {
    &&& after.source() == before.source()
    &&& match want {
        Some(l) => after.consumed() == before.consumed() + 1 + l.more && text is Some && Some(
            text->0@,
        ) == l.text,
        None => after.consumed() == before.consumed() && text is None,
    }
}

impl Cursor {
    /// Consumes a run of characters of the class that `pred` decides, and
    /// returns it.
    fn eat_run<F: Fn(char) -> bool>(&mut self, pred: F, Ghost(class): Ghost<CharClass>) -> (segment:
        String)
        requires
            forall|c: char| pred.requires((c,)),
            forall|c: char, b: bool| pred.ensures((c,), b) ==> b == class.has(c),
        ensures
            final(self).source() == old(self).source(),
            final(self).consumed() == old(self).consumed() + rules::run(
                old(self).source(),
                old(self).consumed(),
                class,
            ),
            0 <= old(self).consumed() <= final(self).consumed() <= old(self).source().len(),
            segment@ == old(self).source().subrange(old(self).consumed(), final(self).consumed()),
    {
        let _ = self.index();
        let segment = self.eat_while(pred);
        proof {
            rules::lemma_run_is(
                self.source(),
                old(self).consumed(),
                self.consumed() - old(self).consumed(),
                class,
            );
        }
        segment
    }

    /// Consumes a run of whitespace.
    pub fn eat_whitespace(&mut self) -> (r: Option<String>)
        ensures
            took(
                old(self),
                final(self),
                r,
                rules::whitespace(old(self).source(), old(self).consumed()),
            ),
    {
        let segment = self.eat_run(is_whitespace, Ghost(CharClass::Space));
        if segment.as_str().is_empty() {
            None
        } else {
            Some(segment)
        }
    }

    /// Consumes a comment: `//` to the end of the line, or `/*` to the
    /// `*/` that closes it.
    pub fn eat_comment(&mut self) -> (r: Option<String>)
        ensures
            took(
                old(self),
                final(self),
                r,
                rules::comment(old(self).source(), old(self).consumed()),
            ),
    {
        if self.first() != '/' {
            return None;
        }
        let ghost s = self.source();
        let ghost i = self.consumed();
        if self.second() == '/' {
            let segment = self.eat_run(is_in_line, Ghost(CharClass::InLine));
            proof {
                reveal_with_fuel(rules::run, 3);
            }
            Some(segment)
        } else if self.second() == '*' {
            let start = self.index();
            self.peek();
            self.peek();
            let mut depth: usize = 1;
            loop
                invariant_except_break
                    rules::block_end(s, self.consumed(), depth as nat) == rules::block_end(
                        s,
                        i + 2,
                        1,
                    ),
                invariant
                    self.source() == s,
                    i == start,
                    i + 2 <= self.consumed() <= s.len() <= usize::MAX,
                    1 <= depth <= self.consumed() - i,
                ensures
                    self.consumed() == rules::block_end(s, i + 2, 1),
                decreases s.len() - self.consumed(),
            {
                if self.is_eof() {
                    break ;
                }
                let c = self.first();
                let d = self.second();
                if c == '*' && d == '/' {
                    self.peek();
                    self.peek();
                    if depth <= 1 {
                        break ;
                    }
                    depth -= 1;
                } else if c == '/' && d == '*' {
                    self.peek();
                    self.peek();
                    depth += 1;
                } else {
                    self.peek();
                }
            }
            Some(self.text_between(start, self.index()))
        } else {
            None
        }
    }

    /// Consumes an operator: an operator character, `or`, or `and`.
    pub fn eat_operator(&mut self) -> (r: Option<String>)
        ensures
            took(
                old(self),
                final(self),
                r,
                rules::operator(old(self).source(), old(self).consumed()),
            ),
    {
        let c = self.first();
        if c == '+' || c == '-' || c == '*' || c == '/' || c == '%' || c == '=' || c == '<' || c
            == '>' || c == '&' || c == '|' || c == '^' || c == '~' {
            self.peek();
            let mut text = String::new();
            text.push(c);
            assert(text@ =~= seq![c]);
            Some(text)
        } else if c == 'o' && self.nth_char(1) == 'r' {
            self.peek_inc(1);
            Some("or".to_string())
        } else if c == 'a' && self.nth_char(1) == 'n' && self.nth_char(2) == 'd' {
            self.peek_inc(2);
            Some("and".to_string())
        } else {
            None
        }
    }

    /// Consumes a keyword, if whitespace follows it directly, and returns
    /// its spelling.
    pub fn eat_keyword(&mut self) -> (r: Option<String>)
        ensures
            final(self).source() == old(self).source(),
            match rules::keyword(old(self).source(), old(self).consumed()) {
                Some(l) => final(self).consumed() == old(self).consumed() + 1 + l.more && r is Some
                    && l.kind == TokenType::KeyWord(KeyWord::parse(r->0@)->0) && KeyWord::parse(
                    r->0@,
                ) is Some,
                None => final(self).consumed() == old(self).consumed() && r is None,
            },
    {
        let ghost s = self.source();
        let ghost i = self.consumed();
        let mut segment = String::new();
        let mut n: usize = 0;
        let _ = self.index();
        proof {
            assert(s.subrange(i, i) =~= Seq::<char>::empty());
        }
        while n < MAX_KEYWORD_LENGTH
            invariant
                self.source() == s,
                self.consumed() == i,
                s == old(self).source(),
                i == old(self).consumed(),
                0 <= i <= s.len(),
                n <= MAX_KEYWORD_LENGTH,
                i + n <= s.len(),
                segment@ == s.subrange(i, i + n),
                rules::keyword_from(s, i, 1) == rules::keyword_from(s, i, (n + 1) as nat),
            decreases MAX_KEYWORD_LENGTH - n,
        {
            if self.remaining() <= n {
                return None;
            }
            let next_char = self.nth_char(n);
            segment.push(next_char);
            proof {
                assert(s.subrange(i, i + n + 1) =~= s.subrange(i, i + n).push(next_char));
            }
            n += 1;
            match KeyWord::from_string(&segment) {
                Some(keyword) => {
                    proof {
                        lemma_keyword_round_trip(keyword, segment@);
                    }
                    if is_whitespace(self.nth_char(n)) {
                        self.peek_inc(n - 1);
                        return Some(keyword.to_string());
                    } else {
                        return None;
                    }
                },
                None => {},
            }
        }
        None
    }

    /// Consumes the word `word` if it stands next.
    fn eat_word(&mut self, word: &str, Ghost(kind): Ghost<TokenType>) -> (r: Option<String>)
        ensures
            took(
                old(self),
                final(self),
                r,
                rules::word(old(self).source(), old(self).consumed(), kind, word@),
            ),
    {
        let n = word.unicode_len();
        if n > 0 && self.looking_at(word) {
            self.peek_inc(n - 1);
            Some(word.to_string())
        } else {
            None
        }
    }

    /// Consumes a truth value: `true` or `false`.
    pub fn eat_boolean(&mut self) -> (r: Option<String>)
        ensures
            took(
                old(self),
                final(self),
                r,
                rules::boolean(old(self).source(), old(self).consumed()),
            ),
    {
        match self.eat_word("true", Ghost(TokenType::Boolean)) {
            Some(text) => Some(text),
            None => self.eat_word("false", Ghost(TokenType::Boolean)),
        }
    }

    /// Consumes an identifier.
    pub fn eat_identifier(&mut self) -> (r: Option<String>)
        ensures
            took(
                old(self),
                final(self),
                r,
                rules::identifier(old(self).source(), old(self).consumed()),
            ),
    {
        let c = self.first();
        if self.is_eof() || !(c == '_' || is_letter(c)) {
            return None;
        }
        let start = self.index();
        self.peek();
        self.eat_run(is_word_char, Ghost(CharClass::Word));
        Some(self.text_between(start, self.index()))
    }

    /// Consumes a number.
    pub fn eat_number(&mut self) -> (r: Option<String>)
        ensures
            took(
                old(self),
                final(self),
                r,
                rules::number(old(self).source(), old(self).consumed()),
            ),
    {
        if self.is_eof() || !is_digit(self.first()) {
            return None;
        }
        let start = self.index();
        self.peek();
        self.eat_run(is_numeric_char, Ghost(CharClass::Numeric));
        Some(self.text_between(start, self.index()))
    }

    /// Consumes a string with its quotes and returns what stands between
    /// them.
    pub fn eat_string(&mut self) -> (r: Option<String>)
        ensures
            took(
                old(self),
                final(self),
                r,
                rules::string(old(self).source(), old(self).consumed()),
            ),
    {
        let first = self.first();
        if self.is_eof() || !(first == '"' || first == '\'' || first == '`') {
            return None;
        }
        let ghost s = self.source();
        let ghost i = self.consumed();
        self.peek();
        let start = self.index();
        loop
            invariant
                self.source() == s,
                i + 1 == start,
                start <= self.consumed() <= s.len(),
                forall|k: int| start <= k < self.consumed() ==> s[k] != first,
            ensures
                self.consumed() < s.len() ==> s[self.consumed()] == first,
            decreases s.len() - self.consumed(),
        {
            if self.is_eof() || self.first() == first {
                break ;
            }
            self.peek();
        }
        proof {
            rules::lemma_run_is(s, i + 1, self.consumed() - start, CharClass::Not(first));
        }
        let text = self.text_between(start, self.index());
        self.peek();
        Some(text)
    }

    /// Consumes `::`, `:`, `..` or `.`, and returns the kind of the token
    /// with its text.
    pub fn eat_value_reserved(&mut self) -> (r: Option<(TokenType, String)>)
        ensures
            final(self).source() == old(self).source(),
            match rules::value_reserved(old(self).source(), old(self).consumed()) {
                Some(l) => final(self).consumed() == old(self).consumed() + 1 + l.more && match r {
                    Some((kind, text)) => kind == l.kind && Some(text@) == l.text,
                    None => false,
                },
                None => final(self).consumed() == old(self).consumed() && r is None,
            },
    {
        let c = self.first();
        if c == ':' {
            if self.second() == ':' {
                self.peek_inc(1);
                Some((TokenType::Accessor, "::".to_string()))
            } else {
                self.peek();
                Some((TokenType::Colon, ":".to_string()))
            }
        } else if c == '.' {
            if self.second() == '.' {
                self.peek_inc(1);
                Some((TokenType::Range, "..".to_string()))
            } else {
                self.peek();
                Some((TokenType::Accessor, ".".to_string()))
            }
        } else {
            None
        }
    }

    /// The kind of the punctuation character that stands next. Nothing is
    /// consumed.
    pub fn eat_reserved(&self) -> (r: Option<TokenType>)
        ensures
            r == rules::punctuation(self.ahead(0)),
    {
        let c = self.first();
        if c == '[' {
            Some(TokenType::LeftBracket)
        } else if c == ']' {
            Some(TokenType::RightBracket)
        } else if c == '(' {
            Some(TokenType::LeftParenthesis)
        } else if c == ')' {
            Some(TokenType::RightParenthesis)
        } else if c == '{' {
            Some(TokenType::LeftBrace)
        } else if c == '}' {
            Some(TokenType::RightBrace)
        } else if c == ';' {
            Some(TokenType::StatementEnd)
        } else if c == ',' {
            Some(TokenType::Comma)
        } else if c == '\\' {
            Some(TokenType::Backslash)
        } else {
            None
        }
    }
}

impl Cursor {
    /// What [`Cursor::eat`] does to the cursor `before` that leaves the
    /// cursor `after` and returns `r`: at the end of the source, nothing;
    /// where a token begins, it consumes the token and returns it; where
    /// none begins, it consumes one character and returns nothing.
    pub open spec fn ate(before: &Cursor, after: &Cursor, r: Option<Token>) -> bool {
        let s = before.source();
        let i = before.consumed();
        &&& after.source() == s
        &&& if i >= s.len() {
            r is None && after.consumed() == i
        } else {
            match rules::lexeme(s, i) {
                Some(l) => r is Some && r->0@ == rules::token_at(s, i, l) && after.consumed() == i
                    + 1 + l.more,
                None => r is None && after.consumed() == i + 1,
            }
        }
    }

    /// Consumes the token that begins at the next character and returns it.
    /// A character at which no token begins is consumed without a token.
    pub fn eat(&mut self) -> (r: Option<Token>)
        ensures
            Self::ate(old(self), final(self), r),
    {
        let start_pos = self.eaten();
        let _ = self.index();
        match self.eat_whitespace() {
            Some(spaces) => {
                return Some(Token(TokenType::Whitespace, start_pos..self.eaten(), Some(spaces)));
            },
            None => {},
        }
        match self.eat_comment() {
            Some(comment) => {
                return Some(Token(TokenType::Comment, start_pos..self.eaten(), Some(comment)));
            },
            None => {},
        }
        match self.eat_operator() {
            Some(operator) => {
                return Some(Token(TokenType::Operator, start_pos..self.eaten(), Some(operator)));
            },
            None => {},
        }
        match self.eat_keyword() {
            Some(keyword) => {
                return match KeyWord::from_string(&keyword) {
                    Some(k) => Some(Token(TokenType::KeyWord(k), start_pos..self.eaten(), None)),
                    None => None,
                };
            },
            None => {},
        }
        match self.eat_boolean() {
            Some(boolean) => {
                return Some(Token(TokenType::Boolean, start_pos..self.eaten(), Some(boolean)));
            },
            None => {},
        }
        match self.eat_identifier() {
            Some(identifier) => {
                return Some(
                    Token(TokenType::Identifier, start_pos..self.eaten(), Some(identifier)),
                );
            },
            None => {},
        }
        match self.eat_number() {
            Some(number) => {
                return Some(Token(TokenType::Number, start_pos..self.eaten(), Some(number)));
            },
            None => {},
        }
        match self.eat_string() {
            Some(string) => {
                return Some(Token(TokenType::StringLiteral, start_pos..self.eaten(), Some(string)));
            },
            None => {},
        }
        match self.eat_value_reserved() {
            Some((kind, text)) => {
                return Some(Token(kind, start_pos..self.eaten(), Some(text)));
            },
            None => {},
        }
        match self.eat_reserved() {
            Some(kind) => {
                self.peek();
                return Some(Token(kind, start_pos..self.eaten(), None));
            },
            None => {},
        }
        self.peek();
        None
    }
}

/// The tokens of `input`, in the order of the source. Whitespace and
/// comments are tokens too. Characters at which no token begins are passed
/// over.
pub fn tokenize(input: &str) -> (tokens: Vec<Token>)
    ensures
        token_views(tokens@) == rules::lex(input@),
{
    let mut cursor = Cursor::new(input);
    let mut tokens: Vec<Token> = Vec::new();
    let ghost s = input@;
    proof {
        assert(token_views(tokens@) + rules::tokens_from(s, 0) =~= rules::tokens_from(s, 0));
    }
    while !cursor.is_eof()
        invariant
            cursor.source() == s,
            0 <= cursor.consumed() <= s.len(),
            token_views(tokens@) + rules::tokens_from(s, cursor.consumed()) == rules::lex(s),
        decreases s.len() - cursor.consumed(),
    {
        let ghost i = cursor.consumed();
        let ghost before = token_views(tokens@);
        let token = cursor.eat();
        proof {
            rules::lemma_lexeme_fits(s, i);
        }
        match token {
            Some(token) => {
                tokens.push(token);
                proof {
                    let rest = rules::tokens_from(s, cursor.consumed());
                    assert(token_views(tokens@) =~= before.push(token@));
                    assert(before.push(token@) + rest =~= before + (seq![token@] + rest));
                }
            },
            None => {},
        }
    }
    proof {
        assert(token_views(tokens@) + Seq::<TokenView>::empty() =~= token_views(tokens@));
    }
    tokens
}

/// Whether `c` is no line feed.
fn is_in_line(c: char) -> (b: bool)
    ensures
        b == CharClass::InLine.has(c),
{
    c != '\n'
}

/// Whether `c` can stand in an identifier.
fn is_word_char(c: char) -> (b: bool)
    ensures
        b == CharClass::Word.has(c),
{
    !is_whitespace(c) && (c.is_alphanumeric() || c == '_')
}

/// Whether `c` can stand in a number.
fn is_numeric_char(c: char) -> (b: bool)
    ensures
        b == CharClass::Numeric.has(c),
{
    is_digit(c) || c == '.'
}

} // verus!
