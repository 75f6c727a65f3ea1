//! The operators of the language.
use vstd::prelude::*;

use crate::text::str_eq;

verus! {

/// An operator of any class.
#[derive(Debug, Clone, Copy, PartialEq, Eq, Structural)]
pub enum AnyOperation {
    BinOp(BinOp),
    UnaryOp(UnaryOp),
    LogicalOp(LogicalOp),
    ComparisonOp(ComparisonOp),
    AssignmentOp(AssignmentOp),
}

impl AnyOperation {
    /// The operator that `s` spells, if it spells one.
    pub open spec fn parse(s: Seq<char>) -> Option<AnyOperation> {
        if s == "="@ {
            Some(AnyOperation::AssignmentOp(AssignmentOp::Eq))
        } else if s == "+="@ {
            Some(AnyOperation::AssignmentOp(AssignmentOp::Add))
        } else if s == "-="@ {
            Some(AnyOperation::AssignmentOp(AssignmentOp::Sub))
        } else if s == "*="@ {
            Some(AnyOperation::AssignmentOp(AssignmentOp::Mul))
        } else if s == "/="@ {
            Some(AnyOperation::AssignmentOp(AssignmentOp::Div))
        } else if s == "%="@ {
            Some(AnyOperation::AssignmentOp(AssignmentOp::Rem))
        } else if s == "&="@ {
            Some(AnyOperation::AssignmentOp(AssignmentOp::BitAnd))
        } else if s == "|="@ {
            Some(AnyOperation::AssignmentOp(AssignmentOp::BitOr))
        } else if s == "^="@ {
            Some(AnyOperation::AssignmentOp(AssignmentOp::BitXor))
        } else if s == "<<="@ {
            Some(AnyOperation::AssignmentOp(AssignmentOp::BitSh1))
        } else if s == ">>="@ {
            Some(AnyOperation::AssignmentOp(AssignmentOp::BitShr))
        } else if s == "=="@ {
            Some(AnyOperation::ComparisonOp(ComparisonOp::Eq))
        } else if s == "!="@ {
            Some(AnyOperation::ComparisonOp(ComparisonOp::NotEq))
        } else if s == "<"@ {
            Some(AnyOperation::ComparisonOp(ComparisonOp::LessThan))
        } else if s == ">"@ {
            Some(AnyOperation::ComparisonOp(ComparisonOp::GreaterThan))
        } else if s == "<="@ {
            Some(AnyOperation::ComparisonOp(ComparisonOp::LessThanOrEqual))
        } else if s == ">="@ {
            Some(AnyOperation::ComparisonOp(ComparisonOp::GreaterThanOrEqual))
        } else if s == "<<"@ {
            Some(AnyOperation::BinOp(BinOp::Shl))
        } else if s == ">>"@ {
            Some(AnyOperation::BinOp(BinOp::Shr))
        } else if s == "&"@ {
            Some(AnyOperation::BinOp(BinOp::And))
        } else if s == "|"@ {
            Some(AnyOperation::BinOp(BinOp::Or))
        } else if s == "^"@ {
            Some(AnyOperation::BinOp(BinOp::Caret))
        } else if s == "&&"@ {
            Some(AnyOperation::LogicalOp(LogicalOp::And))
        } else if s == "||"@ {
            Some(AnyOperation::LogicalOp(LogicalOp::Or))
        } else if s == "!"@ {
            Some(AnyOperation::BinOp(BinOp::Not))
        } else if s == "~"@ {
            Some(AnyOperation::BinOp(BinOp::Flip))
        } else if s == "-"@ {
            Some(AnyOperation::BinOp(BinOp::Minus))
        } else if s == "+"@ {
            Some(AnyOperation::BinOp(BinOp::Plus))
        } else if s == "*"@ {
            Some(AnyOperation::BinOp(BinOp::Star))
        } else if s == "/"@ {
            Some(AnyOperation::BinOp(BinOp::Slash))
        } else if s == "%"@ {
            Some(AnyOperation::BinOp(BinOp::Percent))
        } else {
            None
        }
    }

    pub fn from_string(value: String) -> (op: Option<AnyOperation>)
        ensures
            op == Self::parse(value@),
    {
        let s = value.as_str();
        if str_eq(s, "=") {
            Some(AnyOperation::AssignmentOp(AssignmentOp::Eq))
        } else if str_eq(s, "+=") {
            Some(AnyOperation::AssignmentOp(AssignmentOp::Add))
        } else if str_eq(s, "-=") {
            Some(AnyOperation::AssignmentOp(AssignmentOp::Sub))
        } else if str_eq(s, "*=") {
            Some(AnyOperation::AssignmentOp(AssignmentOp::Mul))
        } else if str_eq(s, "/=") {
            Some(AnyOperation::AssignmentOp(AssignmentOp::Div))
        } else if str_eq(s, "%=") {
            Some(AnyOperation::AssignmentOp(AssignmentOp::Rem))
        } else if str_eq(s, "&=") {
            Some(AnyOperation::AssignmentOp(AssignmentOp::BitAnd))
        } else if str_eq(s, "|=") {
            Some(AnyOperation::AssignmentOp(AssignmentOp::BitOr))
        } else if str_eq(s, "^=") {
            Some(AnyOperation::AssignmentOp(AssignmentOp::BitXor))
        } else if str_eq(s, "<<=") {
            Some(AnyOperation::AssignmentOp(AssignmentOp::BitSh1))
        } else if str_eq(s, ">>=") {
            Some(AnyOperation::AssignmentOp(AssignmentOp::BitShr))
        } else if str_eq(s, "==") {
            Some(AnyOperation::ComparisonOp(ComparisonOp::Eq))
        } else if str_eq(s, "!=") {
            Some(AnyOperation::ComparisonOp(ComparisonOp::NotEq))
        } else if str_eq(s, "<") {
            Some(AnyOperation::ComparisonOp(ComparisonOp::LessThan))
        } else if str_eq(s, ">") {
            Some(AnyOperation::ComparisonOp(ComparisonOp::GreaterThan))
        } else if str_eq(s, "<=") {
            Some(AnyOperation::ComparisonOp(ComparisonOp::LessThanOrEqual))
        } else if str_eq(s, ">=") {
            Some(AnyOperation::ComparisonOp(ComparisonOp::GreaterThanOrEqual))
        } else if str_eq(s, "<<") {
            Some(AnyOperation::BinOp(BinOp::Shl))
        } else if str_eq(s, ">>") {
            Some(AnyOperation::BinOp(BinOp::Shr))
        } else if str_eq(s, "&") {
            Some(AnyOperation::BinOp(BinOp::And))
        } else if str_eq(s, "|") {
            Some(AnyOperation::BinOp(BinOp::Or))
        } else if str_eq(s, "^") {
            Some(AnyOperation::BinOp(BinOp::Caret))
        } else if str_eq(s, "&&") {
            Some(AnyOperation::LogicalOp(LogicalOp::And))
        } else if str_eq(s, "||") {
            Some(AnyOperation::LogicalOp(LogicalOp::Or))
        } else if str_eq(s, "!") {
            Some(AnyOperation::BinOp(BinOp::Not))
        } else if str_eq(s, "~") {
            Some(AnyOperation::BinOp(BinOp::Flip))
        } else if str_eq(s, "-") {
            Some(AnyOperation::BinOp(BinOp::Minus))
        } else if str_eq(s, "+") {
            Some(AnyOperation::BinOp(BinOp::Plus))
        } else if str_eq(s, "*") {
            Some(AnyOperation::BinOp(BinOp::Star))
        } else if str_eq(s, "/") {
            Some(AnyOperation::BinOp(BinOp::Slash))
        } else if str_eq(s, "%") {
            Some(AnyOperation::BinOp(BinOp::Percent))
        } else {
            None
        }
    }
}

/// Operators with two operands.
#[derive(Debug, Clone, Copy, PartialEq, Eq, Structural)]
pub enum BinOp {
    /// `+`
    Plus,
    /// `-`
    Minus,
    /// `*`
    Star,
    /// `/`
    Slash,
    /// `%`
    Percent,
    /// `^`
    Caret,
    /// `!`
    Not,
    /// `~`
    Flip,
    /// `&`
    And,
    /// `|`
    Or,
    /// `<<`
    Shl,
    /// `>>`
    Shr,
    /// `>>>`
    UShr,
}

/// Operators with one operand.
#[derive(Debug, Clone, Copy, PartialEq, Eq, Structural)]
pub enum UnaryOp {
    /// `++x`
    IncP,
    /// `x++`
    Inc,
    /// `--x`
    DecP,
    /// `x--`
    Dec,
    /// `-x`
    Neg,
    /// `+x`
    Pos,
    /// `!x`
    Not,
    /// `delete x`
    Delete,
    /// Shorthand for `x = {}`
    Object,
}

/// Operators on truth values.
#[derive(Debug, Clone, Copy, PartialEq, Eq, Structural)]
pub enum LogicalOp {
    /// `x && y`
    And,
    /// `x || y`
    Or,
    /// `x ?? y`
    Coalasce,
}

/// Operators that compare two values.
#[derive(Debug, Clone, Copy, PartialEq, Eq, Structural)]
pub enum ComparisonOp {
    Eq,
    NotEq,
    GreaterThan,
    GreaterThanOrEqual,
    LessThan,
    LessThanOrEqual,
    Contains,
    In,
    InstanceOf,
}

/// Operators that assign.
#[derive(Debug, Clone, Copy, PartialEq, Eq, Structural)]
pub enum AssignmentOp {
    /// `x = y`
    Eq,
    /// `x += y`
    Add,
    /// `x -= y`
    Sub,
    /// `x *= y`
    Mul,
    /// `x /= y`
    Div,
    /// `x %= y`
    Rem,
    BitAnd,
    BitOr,
    BitXor,
    BitSh1,
    BitShr,
    BitUshr,
    /// `x &&= y`
    BoolAnd,
    /// `x ||= y`
    BoolOr,
    /// `x ??= y`
    Coalesce,
}

} // verus!
