use surn::lexer::analysis::{analyze, analyze_source};
use surn::lexer::keyword::KeyWord;
use surn::lexer::pos::cursor::{Cursor, END_OF_FILE};
use surn::lexer::pos::{Position, Region};
use surn::lexer::token::{Token, TokenType};
use surn::lexer::tokenizer::tokenize;
use surn::util::TokenStream;

fn kinds(source: &str) -> Vec<TokenType> {
    tokenize(source).iter().map(|t| t.kind()).collect()
}

fn texts(source: &str) -> Vec<Option<String>> {
    tokenize(source).iter().map(|t| t.value()).collect()
}

#[test]
fn empty_source_has_no_tokens() {
    assert!(tokenize("").is_empty());
}

#[test]
fn whitespace_is_one_token() {
    let tokens = tokenize(" \t\n  ");
    assert_eq!(tokens.len(), 1);
    assert_eq!(tokens[0].kind(), TokenType::Whitespace);
    assert_eq!(tokens[0].range(), 0..5);
    assert_eq!(tokens[0].value().as_deref(), Some(" \t\n  "));
}

#[test]
fn variable_declaration() {
    assert_eq!(
        kinds("var x = 5;"),
        vec![
            TokenType::KeyWord(KeyWord::Var),
            TokenType::Whitespace,
            TokenType::Identifier,
            TokenType::Whitespace,
            TokenType::Operator,
            TokenType::Whitespace,
            TokenType::Number,
            TokenType::StatementEnd,
        ]
    );
    let ranges: Vec<_> = tokenize("var x = 5;").iter().map(|t| t.range()).collect();
    assert_eq!(ranges, vec![0..3, 3..4, 4..5, 5..6, 6..7, 7..8, 8..9, 9..10]);
    assert_eq!(
        texts("var x = 5;"),
        vec![
            None,
            Some(" ".to_string()),
            Some("x".to_string()),
            Some(" ".to_string()),
            Some("=".to_string()),
            Some(" ".to_string()),
            Some("5".to_string()),
            None
        ]
    );
}

#[test]
fn keyword_needs_whitespace_behind_it() {
    assert_eq!(kinds("if("), vec![TokenType::Identifier, TokenType::LeftParenthesis]);
    assert_eq!(kinds("if ("), vec![
        TokenType::KeyWord(KeyWord::If),
        TokenType::Whitespace,
        TokenType::LeftParenthesis
    ]);
    assert_eq!(kinds("var"), vec![TokenType::Identifier]);
}

#[test]
fn comments() {
    let tokens = tokenize("// a\nx");
    assert_eq!(tokens[0].kind(), TokenType::Comment);
    assert_eq!(tokens[0].value().as_deref(), Some("// a"));
    assert_eq!(tokens[0].range(), 0..4);
    assert_eq!(tokens[1].kind(), TokenType::Whitespace);
    let tokens = tokenize("/* a /* b */ c **/x");
    assert_eq!(tokens[0].kind(), TokenType::Comment);
    assert_eq!(tokens[0].value().as_deref(), Some("/* a /* b */ c **/"));
    assert_eq!(tokens[1].kind(), TokenType::Identifier);
    let tokens = tokenize("/* open");
    assert_eq!(tokens.len(), 1);
    assert_eq!(tokens[0].range(), 0..7);
}

#[test]
fn operators() {
    assert_eq!(texts("+"), vec![Some("+".to_string())]);
    assert_eq!(kinds("/"), vec![TokenType::Operator]);
    let tokens = tokenize("a or b and c");
    let words: Vec<_> = tokens
        .iter()
        .filter(|t| t.kind() == TokenType::Operator)
        .map(|t| (t.value().unwrap(), t.range()))
        .collect();
    assert_eq!(words, vec![("or".to_string(), 2..4), ("and".to_string(), 7..10)]);
}

#[test]
fn booleans_identifiers_numbers() {
    assert_eq!(kinds("true false"), vec![
        TokenType::Boolean,
        TokenType::Whitespace,
        TokenType::Boolean
    ]);
    assert_eq!(texts("_a1 b"), vec![
        Some("_a1".to_string()),
        Some(" ".to_string()),
        Some("b".to_string())
    ]);
    assert_eq!(texts("12.5"), vec![Some("12.5".to_string())]);
    assert_eq!(kinds("12.5"), vec![TokenType::Number]);
}

#[test]
fn strings() {
    let tokens = tokenize("\"a b\"'c'`d");
    assert_eq!(tokens.len(), 3);
    assert!(tokens.iter().all(|t| t.kind() == TokenType::StringLiteral));
    assert_eq!(tokens[0].value().as_deref(), Some("a b"));
    assert_eq!(tokens[0].range(), 0..5);
    assert_eq!(tokens[1].range(), 5..8);
    assert_eq!(tokens[2].value().as_deref(), Some("d"));
    assert_eq!(tokens[2].range(), 8..10);
}

#[test]
fn punctuation() {
    assert_eq!(kinds("::"), vec![TokenType::Accessor]);
    assert_eq!(kinds(":"), vec![TokenType::Colon]);
    assert_eq!(kinds(".."), vec![TokenType::Range]);
    assert_eq!(tokenize("..")[0].range(), 0..2);
    assert_eq!(kinds("."), vec![TokenType::Accessor]);
    assert_eq!(kinds("[](){};,\\"), vec![
        TokenType::LeftBracket,
        TokenType::RightBracket,
        TokenType::LeftParenthesis,
        TokenType::RightParenthesis,
        TokenType::LeftBrace,
        TokenType::RightBrace,
        TokenType::StatementEnd,
        TokenType::Comma,
        TokenType::Backslash,
    ]);
}

#[test]
fn unknown_characters_are_passed_over() {
    let tokens = tokenize("a#b");
    assert_eq!(tokens.len(), 2);
    assert_eq!(tokens[0].range(), 0..1);
    assert_eq!(tokens[1].range(), 2..3);
}

#[test]
fn ranges_are_bytes() {
    let tokens = tokenize("\"é\" x");
    assert_eq!(tokens[0].range(), 0..4);
    assert_eq!(tokens[1].range(), 4..5);
    assert_eq!(tokens[2].range(), 5..6);
}

#[test]
fn ranges_cover_the_source() {
    let source = "var x = [1, 2]; # $ /* c */ \"s\" foo.bar";
    let tokens = tokenize(source);
    let mut covered = 0;
    let mut end = 0;
    let mut dropped = 0;
    for t in &tokens {
        let r = t.range();
        assert!(end <= r.start && r.start <= r.end && r.end <= source.len());
        dropped += r.start - end;
        covered += r.end - r.start;
        end = r.end;
    }
    dropped += source.len() - end;
    assert_eq!(covered + dropped, source.len());
    assert_eq!(dropped, 2);
}

#[test]
fn keyword_spellings() {
    for word in ["namespace", "const", "var", "class", "function", "extends", "implements", "new"] {
        let k = KeyWord::from_string(&word.to_string()).unwrap();
        assert_eq!(k.to_string(), word);
    }
    assert!(KeyWord::from_string(&"fun".to_string()).is_none());
    assert!(KeyWord::Public.is_visibility());
    assert!(!KeyWord::Static.is_visibility());
    assert!(KeyWord::Class.is_declarative());
    assert!(KeyWord::Else.is_control());
}

#[test]
fn token_kind_names() {
    assert_eq!(TokenType::StringLiteral.to_string(), "String");
    assert_eq!(TokenType::LeftBrace.to_string(), "Opening Delimiter");
    assert_eq!(TokenType::KeyWord(KeyWord::Var).as_keyword(), KeyWord::Var);
    assert!(TokenType::Colon.is_assignment());
}

#[test]
fn cursor_positions() {
    let mut cursor = Cursor::new("ab\ncd");
    assert_eq!(cursor.first(), 'a');
    assert_eq!(cursor.second(), 'b');
    assert_eq!(cursor.nth_char(9), END_OF_FILE);
    assert_eq!(cursor.get_prev(), END_OF_FILE);
    assert_eq!(cursor.peek(), Some('a'));
    assert_eq!(cursor.get_pos(), Position::new(1, 1));
    cursor.peek_inc(1);
    assert_eq!(cursor.get_pos(), Position::new(2, 0));
    assert_eq!(cursor.get_prev(), '\n');
    assert_eq!(cursor.eaten(), 3);
    assert_eq!(cursor.eat_while(|c| c != 'd'), "c");
    assert_eq!(cursor.chars(), vec!['d']);
    assert_eq!(cursor.peek_get_pos(), Position::new(2, 2));
    assert!(cursor.is_eof());
    assert_eq!(cursor.peek(), None);
    assert_eq!(cursor.first(), END_OF_FILE);
}

#[test]
fn cursor_with_a_predicate_that_consumes() {
    let mut cursor = Cursor::new("ab*/cd");
    let segment = cursor.eat_while_cursor(|c: &mut Cursor, ch: char| {
        if ch == '*' && c.second() == '/' {
            c.peek();
            c.peek();
            false
        } else {
            true
        }
    });
    assert_eq!(segment, "ab");
    assert_eq!(cursor.first(), 'c');
    assert_eq!(cursor.eat_while_cursor(|_c: &mut Cursor, ch: char| ch != 'x'), "cd");
    assert!(cursor.is_eof());
    assert_eq!(cursor.eat_while_cursor(|_c: &mut Cursor, _ch: char| true), "");
}

#[test]
fn stream_buffer() {
    let mut stream = TokenStream::new(tokenize("a b"));
    assert_eq!(surn::util::StreamBuffer::eaten(&stream), 0);
    assert!(surn::util::StreamBuffer::peek(&mut stream).is_some());
    assert_eq!(surn::util::StreamBuffer::eaten(&stream), 1);
    assert_eq!(surn::util::StreamBuffer::items(&stream).len(), 2);
    assert!(surn::util::StreamBuffer::prev(&stream).is_some());
    assert!(!surn::util::StreamBuffer::is_eof(&stream));
    assert!(surn::util::StreamBuffer::first(&stream).is_some());
    assert!(surn::util::StreamBuffer::second(&stream).is_some());
    assert!(surn::util::StreamBuffer::nth(&stream, 2).is_none());
    assert!(surn::util::StreamBuffer::unpeek(&mut stream).is_none());
}

#[test]
fn cursor_counts_bytes() {
    let mut cursor = Cursor::new("é\n");
    cursor.peek();
    assert_eq!(cursor.eaten(), 2);
    assert_eq!(cursor.ipeek_get_pos(5), Position::new(2, 0));
    assert_eq!(cursor.eaten(), 3);
}

#[test]
fn positions() {
    let a = Position::new(1, 5);
    let b = Position::new(2, 0);
    assert!(a.is_leading(&b));
    assert!(!b.is_leading(&a));
    assert!(a.is_leading(&a));
    let mut c = Position::new(10, 20);
    c.sub(Position::new(10, 5));
    assert_eq!(c, Position::new(0, 15));
    c.add(Position::new(1, 1));
    assert_eq!(c, Position::new(1, 16));
}

#[test]
fn regions() {
    let mut region = Region::create(0, 0, 10, 29);
    assert!(region.includes(&Position::new(3, 4)));
    assert!(!region.includes(&Position::new(10, 30)));
    assert_eq!(region.get_name(), "Region");
    assert_eq!(Region::from(10, 21).to_string(), "[Line: 10 | Column: 0]");
    let grown = region.expand_to(&Position::new(12, 0));
    assert_eq!(grown.end, Position::new(12, 0));
    let shrunk = region.shrink_to(&Position::new(5, 1));
    assert_eq!(shrunk.end, Position::new(5, 1));
    assert_eq!(Region::new(Position::new(1, 1), Position::new(1, 2), Some("x".to_string())).get_name(), "x");
}

#[test]
fn token_stream() {
    let mut stream = TokenStream::new(tokenize("a  b c"));
    assert!(!stream.is_eof());
    assert_eq!(stream.first().unwrap().value().as_deref(), Some("a"));
    assert_eq!(stream.second().unwrap().kind(), TokenType::Whitespace);
    assert!(stream.prev().is_none());
    assert!(stream.peek_if(|t: &Token| t.kind().is_number()).is_none());
    assert_eq!(stream.eaten(), 0);
    assert!(stream.peek_if(|t: &Token| t.kind().is_identifier()).is_some());
    assert_eq!(stream.eaten(), 1);
    assert_eq!(stream.prev().unwrap().value().as_deref(), Some("a"));
    let found = stream
        .find_after(|t: &Token| t.kind().is_identifier(), |t: &Token| t.kind().is_whitespace())
        .unwrap();
    assert_eq!(found.0, 1);
    assert_eq!(found.1.value().as_deref(), Some("b"));
    assert_eq!(stream.eaten(), 1);
    let next = stream.peek_until(|t: &Token| !t.kind().is_whitespace()).unwrap();
    assert_eq!(next.value().as_deref(), Some("b"));
    assert_eq!(stream.eaten(), 2);
    assert_eq!(stream.items().len(), 3);
    let eaten = stream.eat_while(|t: &Token| !t.kind().is_whitespace());
    assert_eq!(eaten.len(), 1);
    stream.peek_inc(10);
    assert!(stream.is_eof());
    assert!(stream.peek().is_none());
    assert!(stream.unpeek().is_none());
    assert!(stream.peek_until(|t: &Token| t.kind().is_comma()).is_none());
    assert!(stream.nth(0).is_none());
}

#[test]
fn analysis() {
    assert!(analyze_source("foo(1, (2))").is_ok());
    assert_eq!(
        analyze_source("foo(1, (2)").unwrap_err(),
        "Error! Parenthesis at 3..4 is never closed!"
    );
    let clash = vec![
        Token(TokenType::Identifier, 0..1, Some("a".to_string())),
        Token(TokenType::Identifier, 1..2, Some("b".to_string())),
    ];
    assert_eq!(
        analyze(clash).unwrap_err(),
        "Error! Identifiers can never be next to each-other in this context!\n -> The indentifier \"a\" at 0..1 is next to identifier \"b\" at 1..2"
    );
}
