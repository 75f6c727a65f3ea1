//! The options of the compiler.
use vstd::prelude::*;

verus! {

/// The version of the compiler.
pub const CURRENT_VERSION: &'static str = "0.0.1-alpha.rc.1";

/// The version of the nightly compiler.
pub const NIGHTLY_VERSION: &'static str = "0.0.1-alpha.rc.1";

/// The version of the beta compiler.
pub const BETA_VERSION: &'static str = "0.0.1-alpha.rc.1";

/// What the compiler is asked to do besides parsing.
pub struct CompilerOptions {
    /// The version of the compiler to compile with.
    pub version: &'static str,
    /// Whether the tokens of a source are checked before they are parsed.
    pub semantic_checks: bool,
    /// Whether the program is optimized after it is parsed.
    pub optimize: bool,
    /// Whether the syntax tree is written to a file.
    pub dump_ast: bool,
    /// Whether the program is checked after it is parsed.
    pub post_semantic_checks: bool,
    /// Whether the compiler stops when the syntax tree is complete.
    pub ast_only: bool,
    pub detect_bleeding_declarations: bool,
}

impl CompilerOptions {
    /// The options of a release build: every check and the optimizer.
    pub fn default() -> (o: Self)
        ensures
            o.version@ == NIGHTLY_VERSION@,
            o.semantic_checks,
            o.optimize,
            !o.dump_ast,
            o.post_semantic_checks,
            !o.ast_only,
            !o.detect_bleeding_declarations,
    {
        Self {
            version: NIGHTLY_VERSION,
            semantic_checks: true,
            optimize: true,
            dump_ast: false,
            post_semantic_checks: true,
            ast_only: false,
            detect_bleeding_declarations: false,
        }
    }

    /// The options of a development build: the syntax tree is written
    /// out, and the program is not checked after it is parsed.
    pub fn dev() -> (o: Self)
        ensures
            o.version@ == CURRENT_VERSION@,
            o.semantic_checks,
            o.optimize,
            o.dump_ast,
            !o.post_semantic_checks,
            !o.ast_only,
            !o.detect_bleeding_declarations,
    {
        Self {
            version: CURRENT_VERSION,
            semantic_checks: true,
            optimize: true,
            dump_ast: true,
            post_semantic_checks: false,
            ast_only: false,
            detect_bleeding_declarations: false,
        }
    }
}

} // verus!
