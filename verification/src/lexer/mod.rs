//! Lexical analysis: positions, the character cursor, tokens and the tokenizer.
pub mod pos;
pub mod keyword;
pub mod token;
pub mod rules;
pub mod tokenizer;
pub mod analysis;
