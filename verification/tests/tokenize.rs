use surn::lexer::token::TokenType;
use surn::lexer::tokenizer::tokenize;

#[test]
pub fn test_token_comparison() {
    let one_token = tokenize("identifier").get(0).unwrap().clone();
    let two_token = tokenize("another_identifier").get(0).unwrap().clone();

    assert_eq!(one_token.kind(), two_token.kind());

    assert_ne!(TokenType::LeftBrace, TokenType::RightBrace);
}

#[test]
pub fn apple() {}
