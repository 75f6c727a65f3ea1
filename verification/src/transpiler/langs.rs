//! The languages that code can be generated for.
use vstd::prelude::*;

use crate::ast::AstBody;
use crate::options::CompilerOptions;

verus! {

/// The version of the interface between the compiler and a generator.
#[derive(Debug, Clone, Copy, PartialEq, Eq, Structural)]
pub enum ApiVersion {
    V1,
}

/// Generates the text of a program in another language.
pub trait Generator {
    /// The text of the program `ast` in the language of the generator.
    fn generate_to_string(&self, ast: AstBody, options: CompilerOptions) -> String;
}

/// A language that code can be generated for, with its generator.
pub struct Language {
    pub name: String,
    pub description: String,
    pub version: String,
    pub api: ApiVersion,
    pub author: String,
    pub generator: Box<dyn Generator>,
}

} // verus!
