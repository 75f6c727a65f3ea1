//! Tokens: the lexical units that the tokenizer emits.
use vstd::prelude::*;

use std::ops::Range;

use crate::lexer::keyword::KeyWord;

verus! {

/// The kind of a token.
#[derive(Debug, Clone, Copy, PartialEq, Eq, Structural)]
pub enum TokenType {
    /// A word that announces a constant.
    Constant,
    /// A word that announces a variable.
    Variable,
    /// The `:` that separates a name from its type.
    Colon,
    /// A line comment or a block comment.
    Comment,
    /// A reserved word.
    KeyWord(KeyWord),
    /// A name that is not reserved.
    Identifier,
    /// A run of digits and dots, such as `123` or `0.5`.
    Number,
    /// A quoted piece of text.
    StringLiteral,
    /// An operator such as `+`, `=`, `and` or `or`.
    Operator,
    /// A member access: `.` or `::`.
    Accessor,
    /// The range sign `..`.
    Range,
    /// `true` or `false`.
    Boolean,
    /// A run of whitespace.
    Whitespace,
    /// The `;` that ends a statement.
    StatementEnd,
    /// The end of a line.
    LineBreak,
    /// `[`
    LeftBracket,
    /// `]`
    RightBracket,
    /// `(`
    LeftParenthesis,
    /// `)`
    RightParenthesis,
    /// `{`
    LeftBrace,
    /// `}`
    RightBrace,
    /// `,`
    Comma,
    /// `\\`
    Backslash,
}

impl TokenType {
    /// The name of the kind, as it appears in messages.
    pub open spec fn name(self) -> Seq<char> {
        match self {
            TokenType::Constant => "Constant"@,
            TokenType::Variable => "Variable"@,
            TokenType::Colon => "Colon"@,
            TokenType::Comment => "Comment"@,
            TokenType::KeyWord(_) => "KeyWord"@,
            TokenType::Identifier => "Identifier"@,
            TokenType::Number => "Number"@,
            TokenType::StringLiteral => "String"@,
            TokenType::Operator => "Operator"@,
            TokenType::Accessor => "Accessor"@,
            TokenType::Range => "Range"@,
            TokenType::Boolean => "Boolean"@,
            TokenType::Whitespace => "Whitespace"@,
            TokenType::StatementEnd => "Statement End"@,
            TokenType::LineBreak => "EndOfLine"@,
            TokenType::LeftBracket => "Opening Delimiter"@,
            TokenType::RightBracket => "Closing Delimiter"@,
            TokenType::LeftParenthesis => "Opening Delimiter"@,
            TokenType::RightParenthesis => "Closing Delimiter"@,
            TokenType::LeftBrace => "Opening Delimiter"@,
            TokenType::RightBrace => "Closing Delimiter"@,
            TokenType::Comma => "Comma"@,
            TokenType::Backslash => "Backslash"@,
        }
    }

    /// Whether a token of this kind carries no meaning for the parser:
    /// whitespace and comments.
    pub open spec fn blank(self) -> bool {
        self is Whitespace || self is Comment
    }

    pub fn is_colon(&self) -> (b: bool)
        ensures
            b == (*self is Colon),
    {
        match self {
            TokenType::Colon => true,
            _ => false,
        }
    }

    pub fn is_keyword(&self) -> (b: bool)
        ensures
            b == (*self is KeyWord),
    {
        match self {
            TokenType::KeyWord(_) => true,
            _ => false,
        }
    }

    pub fn is_operator(&self) -> (b: bool)
        ensures
            b == (*self is Operator),
    {
        match self {
            TokenType::Operator => true,
            _ => false,
        }
    }

    pub fn is_statement_end(&self) -> (b: bool)
        ensures
            b == (*self is StatementEnd),
    {
        match self {
            TokenType::StatementEnd => true,
            _ => false,
        }
    }

    pub fn is_line_break(&self) -> (b: bool)
        ensures
            b == (*self is LineBreak),
    {
        match self {
            TokenType::LineBreak => true,
            _ => false,
        }
    }

    pub fn is_comment(&self) -> (b: bool)
        ensures
            b == (*self is Comment),
    {
        match self {
            TokenType::Comment => true,
            _ => false,
        }
    }

    pub fn is_string(&self) -> (b: bool)
        ensures
            b == (*self is StringLiteral),
    {
        match self {
            TokenType::StringLiteral => true,
            _ => false,
        }
    }

    pub fn is_string_literal(&self) -> (b: bool)
        ensures
            b == (*self is StringLiteral),
    {
        match self {
            TokenType::StringLiteral => true,
            _ => false,
        }
    }

    pub fn is_number(&self) -> (b: bool)
        ensures
            b == (*self is Number),
    {
        match self {
            TokenType::Number => true,
            _ => false,
        }
    }

    pub fn is_identifier(&self) -> (b: bool)
        ensures
            b == (*self is Identifier),
    {
        match self {
            TokenType::Identifier => true,
            _ => false,
        }
    }

    pub fn is_boolean(&self) -> (b: bool)
        ensures
            b == (*self is Boolean),
    {
        match self {
            TokenType::Boolean => true,
            _ => false,
        }
    }

    pub fn is_variable(&self) -> (b: bool)
        ensures
            b == (*self is Variable),
    {
        match self {
            TokenType::Variable => true,
            _ => false,
        }
    }

    pub fn is_assignment(&self) -> (b: bool)
        ensures
            b == (*self is Colon),
    {
        match self {
            TokenType::Colon => true,
            _ => false,
        }
    }

    pub fn is_left_bracket(&self) -> (b: bool)
        ensures
            b == (*self is LeftBracket),
    {
        match self {
            TokenType::LeftBracket => true,
            _ => false,
        }
    }

    pub fn is_right_bracket(&self) -> (b: bool)
        ensures
            b == (*self is RightBracket),
    {
        match self {
            TokenType::RightBracket => true,
            _ => false,
        }
    }

    pub fn is_left_parenthesis(&self) -> (b: bool)
        ensures
            b == (*self is LeftParenthesis),
    {
        match self {
            TokenType::LeftParenthesis => true,
            _ => false,
        }
    }

    pub fn is_right_parenthesis(&self) -> (b: bool)
        ensures
            b == (*self is RightParenthesis),
    {
        match self {
            TokenType::RightParenthesis => true,
            _ => false,
        }
    }

    pub fn is_left_brace(&self) -> (b: bool)
        ensures
            b == (*self is LeftBrace),
    {
        match self {
            TokenType::LeftBrace => true,
            _ => false,
        }
    }

    pub fn is_whitespace(&self) -> (b: bool)
        ensures
            b == (*self is Whitespace),
    {
        match self {
            TokenType::Whitespace => true,
            _ => false,
        }
    }

    pub fn is_right_brace(&self) -> (b: bool)
        ensures
            b == (*self is RightBrace),
    {
        match self {
            TokenType::RightBrace => true,
            _ => false,
        }
    }

    pub fn is_comma(&self) -> (b: bool)
        ensures
            b == (*self is Comma),
    {
        match self {
            TokenType::Comma => true,
            _ => false,
        }
    }

    pub fn is_constant(&self) -> (b: bool)
        ensures
            b == (*self is Constant),
    {
        match self {
            TokenType::Constant => true,
            _ => false,
        }
    }

    pub fn is_accessor(&self) -> (b: bool)
        ensures
            b == (*self is Accessor),
    {
        match self {
            TokenType::Accessor => true,
            _ => false,
        }
    }

    pub fn is_range(&self) -> (b: bool)
        ensures
            b == (*self is Range),
    {
        match self {
            TokenType::Range => true,
            _ => false,
        }
    }

    pub fn is_backslash(&self) -> (b: bool)
        ensures
            b == (*self is Backslash),
    {
        match self {
            TokenType::Backslash => true,
            _ => false,
        }
    }

    /// The keyword of a keyword token.
    pub fn as_keyword(&self) -> (k: KeyWord)
        requires
            *self is KeyWord,
        ensures
            *self == TokenType::KeyWord(k),
    {
        match self {
            TokenType::KeyWord(keyword) => *keyword,
            _ => KeyWord::Namespace,
        }
    }

    pub fn to_string(&self) -> (s: String)
        ensures
            s@ == self.name(),
    {
        match self {
            TokenType::Constant => "Constant".to_string(),
            TokenType::Variable => "Variable".to_string(),
            TokenType::Colon => "Colon".to_string(),
            TokenType::Comment => "Comment".to_string(),
            TokenType::KeyWord(_) => "KeyWord".to_string(),
            TokenType::Identifier => "Identifier".to_string(),
            TokenType::Number => "Number".to_string(),
            TokenType::StringLiteral => "String".to_string(),
            TokenType::Operator => "Operator".to_string(),
            TokenType::Accessor => "Accessor".to_string(),
            TokenType::Range => "Range".to_string(),
            TokenType::Boolean => "Boolean".to_string(),
            TokenType::Whitespace => "Whitespace".to_string(),
            TokenType::StatementEnd => "Statement End".to_string(),
            TokenType::LineBreak => "EndOfLine".to_string(),
            TokenType::LeftBracket => "Opening Delimiter".to_string(),
            TokenType::RightBracket => "Closing Delimiter".to_string(),
            TokenType::LeftParenthesis => "Opening Delimiter".to_string(),
            TokenType::RightParenthesis => "Closing Delimiter".to_string(),
            TokenType::LeftBrace => "Opening Delimiter".to_string(),
            TokenType::RightBrace => "Closing Delimiter".to_string(),
            TokenType::Comma => "Comma".to_string(),
            TokenType::Backslash => "Backslash".to_string(),
        }
    }
}

/// One lexical unit: its kind, the bytes of the source that it covers, and
/// its text where the kind has one.
#[derive(Debug)]
pub struct Token(pub TokenType, pub Range<usize>, pub Option<String>);

/// The mathematical value of a [`Token`].
pub ghost struct TokenView {
    pub kind: TokenType,
    pub start: usize,
    pub end: usize,
    pub text: Option<Seq<char>>,
}

impl TokenView {
    /// The text of the token, or the empty text where it has none.
    pub open spec fn text_or_empty(self) -> Seq<char> {
        match self.text {
            Some(t) => t,
            None => Seq::empty(),
        }
    }

    /// Whether the token is the operator spelled `op`.
    pub open spec fn operator_is(self, op: Seq<char>) -> bool {
        self.kind is Operator && self.text == Some(op)
    }
}

impl View for Token {
    type V = TokenView;

    open spec fn view(&self) -> TokenView {
        TokenView {
            kind: self.0,
            start: self.1.start,
            end: self.1.end,
            text: match self.2 {
                Some(s) => Some(s@),
                None => None,
            },
        }
    }
}

impl Clone for Token {
    fn clone(&self) -> (r: Self)
        ensures
            r@ == self@,
    {
        Token(
            self.0,
            self.1.start..self.1.end,
            match &self.2 {
                Some(s) => Some(s.clone()),
                None => None,
            },
        )
    }
}

impl Token {
    pub fn kind(&self) -> (k: TokenType)
        ensures
            k == self@.kind,
    {
        self.0
    }

    pub fn value(&self) -> (v: Option<String>)
        ensures
            match v {
                Some(s) => self@.text == Some(s@),
                None => self@.text is None,
            },
    {
        match &self.2 {
            Some(s) => Some(s.clone()),
            None => None,
        }
    }

    pub fn range(&self) -> (r: Range<usize>)
        ensures
            r.start == self@.start,
            r.end == self@.end,
    {
        self.1.start..self.1.end
    }
}

/// A copy of every token of `tokens`, in order.
pub fn clone_tokens(tokens: &Vec<Token>) -> (r: Vec<Token>)
    ensures
        token_views(r@) == token_views(tokens@),
{
    let mut out: Vec<Token> = Vec::new();
    let mut i: usize = 0;
    while i < tokens.len()
        invariant
            i <= tokens.len(),
            out@.len() == i,
            forall|j: int| 0 <= j < i ==> out@[j]@ == tokens@[j]@,
        decreases tokens.len() - i,
    {
        out.push(tokens[i].clone());
        i += 1;
    }
    assert(token_views(out@) =~= token_views(tokens@));
    out
}

/// The views of the tokens of `tokens`, in order.
pub open spec fn token_views(tokens: Seq<Token>) -> Seq<TokenView> {
    tokens.map_values(|t: Token| t@)
}

} // verus!
