//! The lexical rules of the language, as functions from the characters of a
//! source and a place in it to the token that begins there.
//!
//! At each place the rules are tried in a fixed order, and the first that
//! matches decides: whitespace, comment, operator, keyword, truth value,
//! identifier, number, string, `::` `:` `..` `.`, punctuation. A character
//! at which no rule matches is passed over without a token.
use vstd::prelude::*;

use crate::lexer::keyword::{KeyWord, MAX_KEYWORD_LENGTH};
use crate::lexer::pos::cursor::{char_at, spelled};
use crate::lexer::token::{TokenType, TokenView};
use crate::text::{alphanumeric, byte_len, is_ascii_letter, is_decimal_digit, is_space};

verus! {

/// A class of characters.
pub ghost enum CharClass {
    /// Whitespace.
    Space,
    /// Every character but the line feed.
    InLine,
    /// The characters of an identifier: letters, digits and the underscore.
    Word,
    /// The characters of a number: decimal digits and the dot.
    Numeric,
    /// Every character but the given one.
    Not(char),
}

impl CharClass {
    /// Whether `c` belongs to the class.
    pub open spec fn has(self, c: char) -> bool {
        match self {
            CharClass::Space => is_space(c),
            CharClass::InLine => c != '\n',
            CharClass::Word => !is_space(c) && (alphanumeric(c) || c == '_'),
            CharClass::Numeric => is_decimal_digit(c) || c == '.',
            CharClass::Not(q) => c != q,
        }
    }
}

/// The length of the longest run of characters of `class` that begins at
/// `i` in `s`.
pub open spec fn run(s: Seq<char>, i: int, class: CharClass) -> nat
    decreases s.len() - i,
{
    if 0 <= i < s.len() && class.has(s[i]) {
        1 + run(s, i + 1, class)
    } else {
        0
    }
}

/// The token that begins at a place: its kind, its length, which is one
/// character and `more`, and its text if the kind has one.
pub ghost struct Lexeme {
    pub kind: TokenType,
    pub more: nat,
    pub text: Option<Seq<char>>,
}

/// A run of whitespace.
pub open spec fn whitespace(s: Seq<char>, i: int) -> Option<Lexeme> {
    let n = run(s, i, CharClass::Space);
    if n > 0 {
        Some(
            Lexeme {
                kind: TokenType::Whitespace,
                more: (n - 1) as nat,
                text: Some(s.subrange(i, i + n)),
            },
        )
    } else {
        None
    }
}

/// Where the block comment ends whose text is read from `j` on at the
/// nesting depth `depth`: behind the `*/` that closes the outermost level,
/// or at the end of the source where the comment is not closed. A `/*`
/// inside the comment opens a further level.
pub open spec fn block_end(s: Seq<char>, j: int, depth: nat) -> int
    decreases s.len() - j,
{
    if !(0 <= j < s.len()) {
        s.len() as int
    } else if s[j] == '*' && char_at(s, j + 1) == '/' {
        if depth <= 1 {
            j + 2
        } else {
            block_end(s, j + 2, (depth - 1) as nat)
        }
    } else if s[j] == '/' && char_at(s, j + 1) == '*' {
        block_end(s, j + 2, depth + 1)
    } else {
        block_end(s, j + 1, depth)
    }
}

/// A comment: `//` to the end of the line, or `/*` to the matching `*/`.
/// The text of the token is the whole comment.
pub open spec fn comment(s: Seq<char>, i: int) -> Option<Lexeme> {
    if char_at(s, i) == '/' && char_at(s, i + 1) == '/' {
        let n = run(s, i, CharClass::InLine);
        Some(
            Lexeme { kind: TokenType::Comment, more: (n - 1) as nat, text: Some(s.subrange(i, i + n)) },
        )
    } else if char_at(s, i) == '/' && char_at(s, i + 1) == '*' {
        let end = block_end(s, i + 2, 1);
        Some(
            Lexeme {
                kind: TokenType::Comment,
                more: (end - i - 1) as nat,
                text: Some(s.subrange(i, end)),
            },
        )
    } else {
        None
    }
}

/// The characters that are operators by themselves.
pub open spec fn is_operator_char(c: char) -> bool {
    c == '+' || c == '-' || c == '*' || c == '/' || c == '%' || c == '=' || c == '<' || c == '>'
        || c == '&' || c == '|' || c == '^' || c == '~'
}

/// An operator: one of the operator characters, or the word `or` or `and`.
pub open spec fn operator(s: Seq<char>, i: int) -> Option<Lexeme> {
    let c = char_at(s, i);
    if is_operator_char(c) {
        Some(Lexeme { kind: TokenType::Operator, more: 0, text: Some(seq![c]) })
    } else if c == 'o' && char_at(s, i + 1) == 'r' {
        Some(Lexeme { kind: TokenType::Operator, more: 1, text: Some("or"@) })
    } else if c == 'a' && char_at(s, i + 1) == 'n' && char_at(s, i + 2) == 'd' {
        Some(Lexeme { kind: TokenType::Operator, more: 2, text: Some("and"@) })
    } else {
        None
    }
}

/// The shortest keyword of at least `n` characters that is spelled at `i`
/// in `s`, with its length.
pub open spec fn keyword_from(s: Seq<char>, i: int, n: nat) -> Option<(KeyWord, nat)>
    decreases MAX_KEYWORD_LENGTH + 1 - n,
{
    if n > MAX_KEYWORD_LENGTH || i < 0 || i + n > s.len() {
        None
    } else {
        match KeyWord::parse(s.subrange(i, i + n)) {
            Some(k) => Some((k, n)),
            None => keyword_from(s, i, n + 1),
        }
    }
}

/// A keyword: the shortest keyword spelled at `i`, if whitespace follows
/// it directly.
pub open spec fn keyword(s: Seq<char>, i: int) -> Option<Lexeme> {
    match keyword_from(s, i, 1) {
        Some((k, n)) => if is_space(char_at(s, i + n)) {
            Some(Lexeme { kind: TokenType::KeyWord(k), more: (n - 1) as nat, text: None })
        } else {
            None
        },
        None => None,
    }
}

/// The token of kind `kind` that is the word `word`, where that word stands
/// at `i` in `s`.
pub open spec fn word(s: Seq<char>, i: int, kind: TokenType, word: Seq<char>) -> Option<Lexeme> {
    if word.len() > 0 && spelled(s, i, word) {
        Some(Lexeme { kind, more: (word.len() - 1) as nat, text: Some(word) })
    } else {
        None
    }
}

/// A truth value: `true` or `false`.
pub open spec fn boolean(s: Seq<char>, i: int) -> Option<Lexeme> {
    or_else(
        word(s, i, TokenType::Boolean, "true"@),
        word(s, i, TokenType::Boolean, "false"@),
    )
}

/// An identifier: a letter or an underscore, and the word characters that
/// follow it.
pub open spec fn identifier(s: Seq<char>, i: int) -> Option<Lexeme> {
    let c = char_at(s, i);
    if 0 <= i < s.len() && (c == '_' || is_ascii_letter(c)) {
        let more = run(s, i + 1, CharClass::Word);
        Some(Lexeme { kind: TokenType::Identifier, more, text: Some(s.subrange(i, i + 1 + more)) })
    } else {
        None
    }
}

/// A number: a digit, and the digits and dots that follow it.
pub open spec fn number(s: Seq<char>, i: int) -> Option<Lexeme> {
    if 0 <= i < s.len() && is_decimal_digit(s[i]) {
        let more = run(s, i + 1, CharClass::Numeric);
        Some(Lexeme { kind: TokenType::Number, more, text: Some(s.subrange(i, i + 1 + more)) })
    } else {
        None
    }
}

/// The characters that open and close a string.
pub open spec fn is_quote(c: char) -> bool {
    c == '"' || c == '\'' || c == '`'
}

/// A string: a quote, the characters up to the next quote of the same
/// kind, and that quote if the source has one. The text of the token is
/// what stands between the quotes.
pub open spec fn string(s: Seq<char>, i: int) -> Option<Lexeme> {
    if 0 <= i < s.len() && is_quote(s[i]) {
        let m = run(s, i + 1, CharClass::Not(s[i]));
        let closing: nat = if i + 1 + m < s.len() {
            1
        } else {
            0
        };
        Some(
            Lexeme {
                kind: TokenType::StringLiteral,
                more: m + closing,
                text: Some(s.subrange(i + 1, i + 1 + m)),
            },
        )
    } else {
        None
    }
}

/// `::` and `.` are accessors, `:` is a colon, `..` is a range.
pub open spec fn value_reserved(s: Seq<char>, i: int) -> Option<Lexeme> {
    let c = char_at(s, i);
    if c == ':' {
        if char_at(s, i + 1) == ':' {
            Some(Lexeme { kind: TokenType::Accessor, more: 1, text: Some("::"@) })
        } else {
            Some(Lexeme { kind: TokenType::Colon, more: 0, text: Some(":"@) })
        }
    } else if c == '.' {
        if char_at(s, i + 1) == '.' {
            Some(Lexeme { kind: TokenType::Range, more: 1, text: Some(".."@) })
        } else {
            Some(Lexeme { kind: TokenType::Accessor, more: 0, text: Some("."@) })
        }
    } else {
        None
    }
}

/// The kind of the punctuation character `c`.
pub open spec fn punctuation(c: char) -> Option<TokenType> {
    if c == '[' {
        Some(TokenType::LeftBracket)
    } else if c == ']' {
        Some(TokenType::RightBracket)
    } else if c == '(' {
        Some(TokenType::LeftParenthesis)
    } else if c == ')' {
        Some(TokenType::RightParenthesis)
    } else if c == '{' {
        Some(TokenType::LeftBrace)
    } else if c == '}' {
        Some(TokenType::RightBrace)
    } else if c == ';' {
        Some(TokenType::StatementEnd)
    } else if c == ',' {
        Some(TokenType::Comma)
    } else if c == '\\' {
        Some(TokenType::Backslash)
    } else {
        None
    }
}

/// A punctuation character. The token has no text.
pub open spec fn reserved(s: Seq<char>, i: int) -> Option<Lexeme> {
    match punctuation(char_at(s, i)) {
        Some(kind) => Some(Lexeme { kind, more: 0, text: None }),
        None => None,
    }
}

/// The first of two answers that is one.
pub open spec fn or_else(a: Option<Lexeme>, b: Option<Lexeme>) -> Option<Lexeme> {
    if a is Some {
        a
    } else {
        b
    }
}

/// The token that begins at `i` in `s`: what the first rule that matches
/// there says. `None` where no rule matches.
pub open spec fn lexeme(s: Seq<char>, i: int) -> Option<Lexeme> {
    or_else(
        whitespace(s, i),
        or_else(
            comment(s, i),
            or_else(
                operator(s, i),
                or_else(
                    keyword(s, i),
                    or_else(
                        boolean(s, i),
                        or_else(
                            identifier(s, i),
                            or_else(
                                number(s, i),
                                or_else(
                                    string(s, i),
                                    or_else(value_reserved(s, i), reserved(s, i)),
                                ),
                            ),
                        ),
                    ),
                ),
            ),
        ),
    )
}

/// The byte offset of the place `i` in `s`.
pub open spec fn offset(s: Seq<char>, i: int) -> nat {
    byte_len(s.take(i))
}

/// The token for the lexeme `l` at `i` in `s`, with the bytes that it
/// covers.
pub open spec fn token_at(s: Seq<char>, i: int, l: Lexeme) -> TokenView {
    TokenView {
        kind: l.kind,
        start: offset(s, i) as usize,
        end: offset(s, i + 1 + l.more) as usize,
        text: l.text,
    }
}

/// The number of characters of `s` from `i` on.
pub open spec fn left(s: Seq<char>, i: int) -> nat {
    if i <= s.len() {
        (s.len() - i) as nat
    } else {
        0
    }
}

/// The tokens of `s` from `i` on.
pub open spec fn tokens_from(s: Seq<char>, i: int) -> Seq<TokenView>
    decreases left(s, i),
{
    if !(0 <= i < s.len()) {
        Seq::empty()
    } else {
        match lexeme(s, i) {
            Some(l) => seq![token_at(s, i, l)] + tokens_from(s, i + 1 + l.more),
            None => tokens_from(s, i + 1),
        }
    }
}

/// The tokens of the source `s`.
pub open spec fn lex(s: Seq<char>) -> Seq<TokenView> {
    tokens_from(s, 0)
}

/// A run does not reach past the end of the text, holds only characters of
/// its class, and ends before a character that is not of the class.
pub proof fn lemma_run(s: Seq<char>, i: int, class: CharClass)
    requires
        0 <= i <= s.len(),
    ensures
        i + run(s, i, class) <= s.len(),
        forall|k: int| i <= k < i + run(s, i, class) ==> class.has(#[trigger] s[k]),
        i + run(s, i, class) < s.len() ==> !class.has(s[i + run(s, i, class)]),
    decreases s.len() - i,
{
    if i < s.len() && class.has(s[i]) {
        lemma_run(s, i + 1, class);
    }
}

/// A stretch of characters of a class that ends before a character that is
/// not of the class, or at the end of the text, is the longest run.
pub proof fn lemma_run_is(s: Seq<char>, i: int, n: int, class: CharClass)
    requires
        0 <= i <= i + n <= s.len(),
        forall|k: int| i <= k < i + n ==> class.has(#[trigger] s[k]),
        i + n < s.len() ==> !class.has(s[i + n]),
    ensures
        run(s, i, class) == n,
    decreases n,
{
    if n > 0 {
        lemma_run_is(s, i + 1, n - 1, class);
    }
}


/// A block comment ends between the place from which it is read and the
/// end of the source.
pub proof fn lemma_block_end(s: Seq<char>, j: int, depth: nat)
    requires
        0 <= j <= s.len(),
    ensures
        j <= block_end(s, j, depth) <= s.len(),
    decreases s.len() - j,
{
    if j < s.len() {
        if s[j] == '*' && char_at(s, j + 1) == '/' {
            if depth > 1 {
                lemma_block_end(s, j + 2, (depth - 1) as nat);
            }
        } else if s[j] == '/' && char_at(s, j + 1) == '*' {
            lemma_block_end(s, j + 2, depth + 1);
        } else {
            lemma_block_end(s, j + 1, depth);
        }
    }
}

/// The keyword that is found at a place is spelled there, within the
/// source.
pub proof fn lemma_keyword_from(s: Seq<char>, i: int, n: nat)
    requires
        n >= 1,
    ensures
        match keyword_from(s, i, n) {
            Some((k, m)) => n <= m <= MAX_KEYWORD_LENGTH && 0 <= i && i + m <= s.len(),
            None => true,
        },
    decreases MAX_KEYWORD_LENGTH + 1 - n,
{
    if !(n > MAX_KEYWORD_LENGTH || i < 0 || i + n > s.len()) {
        if KeyWord::parse(s.subrange(i, i + n)) is None {
            lemma_keyword_from(s, i, n + 1);
        }
    }
}

/// A token lies within the source: it does not reach past its end.
pub proof fn lemma_lexeme_fits(s: Seq<char>, i: int)
    requires
        0 <= i < s.len(),
    ensures
        match lexeme(s, i) {
            Some(l) => i + 1 + l.more <= s.len(),
            None => true,
        },
{
    lemma_run(s, i, CharClass::Space);
    lemma_run(s, i, CharClass::InLine);
    lemma_run(s, i + 1, CharClass::Word);
    lemma_run(s, i + 1, CharClass::Numeric);
    lemma_run(s, i + 1, CharClass::Not(s[i]));
    lemma_keyword_from(s, i, 1);
    if i + 2 <= s.len() {
        lemma_block_end(s, i + 2, 1);
    }
    if char_at(s, i) == '/' && char_at(s, i + 1) == '/' {
        reveal_with_fuel(run, 3);
    }
}

/// The number of bytes that a sequence of tokens covers.
pub open spec fn covered(tokens: Seq<TokenView>) -> int
    decreases tokens.len(),
{
    if tokens.len() == 0 {
        0
    } else {
        (tokens[0].end - tokens[0].start) + covered(tokens.drop_first())
    }
}

/// The number of bytes of the characters of `s` from `i` on at which no
/// token begins and that no token covers.
pub open spec fn dropped(s: Seq<char>, i: int) -> nat
    decreases left(s, i),
{
    if !(0 <= i < s.len()) {
        0
    } else {
        match lexeme(s, i) {
            Some(l) => dropped(s, i + 1 + l.more),
            None => crate::text::width(s[i]) + dropped(s, i + 1),
        }
    }
}

/// Whether the tokens `tokens` lie in order and apart between the byte
/// offsets `from` and `to`: each begins where the one before has ended or
/// later, none ends before it begins, and none reaches past `to`.
pub open spec fn in_order(tokens: Seq<TokenView>, from: int, to: int) -> bool
    decreases tokens.len(),
{
    if tokens.len() == 0 {
        from <= to
    } else {
        from <= tokens[0].start <= tokens[0].end <= to && in_order(
            tokens.drop_first(),
            tokens[0].end as int,
            to,
        )
    }
}

/// Byte offsets grow with the place.
pub proof fn lemma_offset_monotonic(s: Seq<char>, a: int, b: int)
    requires
        0 <= a <= b <= s.len(),
    ensures
        offset(s, a) + (b - a) <= offset(s, b) <= byte_len(s),
{
    crate::text::lemma_byte_len_prefix(s, b);
    crate::text::lemma_byte_len_prefix(s.take(b), a);
    assert(s.take(b).take(a) =~= s.take(a));
}

/// The tokens of a source from a place on lie in order between the byte
/// offset of that place and the end of the source, and the bytes that they
/// cover, with the bytes of the characters passed over, are all the bytes
/// from that place on.
pub proof fn lemma_tokens_partition(s: Seq<char>, i: int)
    requires
        0 <= i <= s.len(),
        byte_len(s) <= usize::MAX,
    ensures
        in_order(tokens_from(s, i), offset(s, i) as int, byte_len(s) as int),
        covered(tokens_from(s, i)) + dropped(s, i) == byte_len(s) - offset(s, i),
    decreases s.len() - i,
{
    lemma_offset_monotonic(s, i, s.len() as int);
    assert(s.take(s.len() as int) =~= s);
    if i < s.len() {
        lemma_lexeme_fits(s, i);
        match lexeme(s, i) {
            Some(l) => {
                let j = i + 1 + l.more;
                lemma_tokens_partition(s, j);
                lemma_offset_monotonic(s, i, j);
                lemma_offset_monotonic(s, j, s.len() as int);
                let t = token_at(s, i, l);
                let all = seq![t] + tokens_from(s, j);
                assert(all.drop_first() =~= tokens_from(s, j));
                assert(all[0] == t);
            },
            None => {
                lemma_tokens_partition(s, i + 1);
                crate::text::lemma_byte_len_step(s, i);
                lemma_offset_monotonic(s, i, i + 1);
                lemma_in_order_from(
                    tokens_from(s, i + 1),
                    offset(s, i) as int,
                    offset(s, i + 1) as int,
                    byte_len(s) as int,
                );
            },
        }
    }
}

/// Tokens that lie in order from an offset on lie in order from any
/// earlier offset on.
pub proof fn lemma_in_order_from(tokens: Seq<TokenView>, earlier: int, from: int, to: int)
    requires
        earlier <= from,
        in_order(tokens, from, to),
    ensures
        in_order(tokens, earlier, to),
{
}

/// A source without characters has no tokens.
pub proof fn lemma_lex_empty()
    ensures
        lex(Seq::<char>::empty()) == Seq::<TokenView>::empty(),
{
}

/// A source of nothing but whitespace has exactly one token: whitespace
/// that covers the whole source.
pub proof fn lemma_lex_whitespace(s: Seq<char>)
    requires
        s.len() > 0,
        forall|i: int| 0 <= i < s.len() ==> is_space(#[trigger] s[i]),
    ensures
        lex(s) == seq![
            TokenView {
                kind: TokenType::Whitespace,
                start: 0,
                end: byte_len(s) as usize,
                text: Some(s),
            },
        ],
{
    lemma_run_is(s, 0, s.len() as int, CharClass::Space);
    assert(s.subrange(0, s.len() as int) =~= s);
    assert(s.take(s.len() as int) =~= s);
    assert(s.take(0) =~= Seq::<char>::empty());
    assert(vstd::utf8::encode_utf8(Seq::<char>::empty()) =~= Seq::<u8>::empty());
    let l = whitespace(s, 0)->0;
    assert(lexeme(s, 0) == Some(l));
    assert(tokens_from(s, s.len() as int) =~= Seq::<TokenView>::empty());
    assert(lex(s) =~= seq![token_at(s, 0, l)]);
}

/// The tokens of a source lie in order within the source, and the bytes
/// that they cover, with the bytes of the characters passed over, are all
/// the bytes of the source.
pub proof fn lemma_lex_partition(s: Seq<char>)
    requires
        byte_len(s) <= usize::MAX,
    ensures
        in_order(lex(s), 0, byte_len(s) as int),
        covered(lex(s)) + dropped(s, 0) == byte_len(s),
{
    lemma_tokens_partition(s, 0);
    assert(s.take(0) =~= Seq::<char>::empty());
    assert(vstd::utf8::encode_utf8(Seq::<char>::empty()) =~= Seq::<u8>::empty());
}

} // verus!
