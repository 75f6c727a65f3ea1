//! Front end of a compiler for a small scripting language: a character cursor,
//! a tokenizer, a recursive-descent parser that builds a range-annotated syntax
//! tree, and a diagnostics engine that renders underlined source snippets.
//!
//! Every function is verified against a contract stated over mathematical
//! models of the data it handles.
pub mod ast;
pub mod lexer;
pub mod options;
pub mod parser;
pub mod report;
pub mod text;
pub mod transpiler;
pub mod types;
pub mod util;

pub use crate::options::CompilerOptions;
