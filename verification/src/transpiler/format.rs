//! How generated code is laid out.
use vstd::prelude::*;

verus! {

/// Where the brace stands that opens a block.
#[derive(Debug, Clone, Copy, PartialEq, Eq, Structural)]
pub enum BraceType {
    /// On a line of its own.
    Allman,
    /// At the end of the line that the block belongs to.
    KandR,
    /// On a line of its own for declarations, at the end of the line
    /// otherwise.
    AllmanMix,
}

/// The layout of generated code.
#[derive(Debug, Clone, Copy, PartialEq, Eq, Structural)]
pub struct FormatOptions {
    pub tab_size: usize,
    pub indent_size: usize,
    pub new_line: char,
    pub indent_after_type: bool,
    pub snake_case_vars: bool,
    pub class_brace: BraceType,
    pub function_brace: BraceType,
    pub if_brace: BraceType,
    pub else_brace: BraceType,
    pub while_brace: BraceType,
    pub for_brace: BraceType,
    pub match_brace: BraceType,
}

impl FormatOptions {
    /// The layout with four spaces to a level, line feeds, and the brace
    /// style `brace` everywhere.
    pub open spec fn uniform(brace: BraceType, snake_case_vars: bool) -> FormatOptions {
        FormatOptions {
            tab_size: 4,
            indent_size: 4,
            new_line: '\n',
            indent_after_type: true,
            snake_case_vars,
            class_brace: brace,
            function_brace: brace,
            if_brace: brace,
            else_brace: brace,
            while_brace: brace,
            for_brace: brace,
            match_brace: brace,
        }
    }

    /// The layout of PSR-4: every brace on a line of its own.
    pub fn psr_4() -> (o: Self)
        ensures
            o == Self::uniform(BraceType::Allman, false),
    {
        Self::with(BraceType::Allman, false)
    }

    /// The layout of Rust: every brace at the end of its line, and
    /// variables in snake case.
    pub fn rust() -> (o: Self)
        ensures
            o == Self::uniform(BraceType::KandR, true),
    {
        Self::with(BraceType::KandR, true)
    }

    /// The usual layout: every brace at the end of its line.
    pub fn default() -> (o: Self)
        ensures
            o == Self::uniform(BraceType::KandR, false),
    {
        Self::with(BraceType::KandR, false)
    }

    fn with(brace: BraceType, snake_case_vars: bool) -> (o: Self)
        ensures
            o == Self::uniform(brace, snake_case_vars),
    {
        FormatOptions {
            tab_size: 4,
            indent_size: 4,
            new_line: '\n',
            indent_after_type: true,
            snake_case_vars,
            class_brace: brace,
            function_brace: brace,
            if_brace: brace,
            else_brace: brace,
            while_brace: brace,
            for_brace: brace,
            match_brace: brace,
        }
    }
}

} // verus!
