//! Line and column positions in a source text.
use vstd::prelude::*;

pub mod cursor;
pub mod region;

pub use self::region::Region;

verus! {

/// A location in a source text: a line, counted from one, and a column,
/// counted from zero.
#[derive(Debug, Clone, Copy, PartialEq, Eq, Structural)]
pub struct Position {
    pub line: usize,
    pub column: usize,
}

impl Position {
    /// Whether `self` is at or before `pos`: on an earlier line, or on the
    /// same line at a column that is not greater.
    pub open spec fn leads(self, pos: Position) -> bool {
        self.line < pos.line || (self.line == pos.line && self.column <= pos.column)
    }

    pub fn new(line: usize, column: usize) -> (p: Self)
        ensures
            p.line == line,
            p.column == column,
    {
        Self { line, column }
    }

    /// Adds `pos` to this position, field by field.
    pub fn add(&mut self, pos: Self)
        requires
            old(self).line + pos.line <= usize::MAX,
            old(self).column + pos.column <= usize::MAX,
        ensures
            final(self).line == old(self).line + pos.line,
            final(self).column == old(self).column + pos.column,
    {
        self.line += pos.line;
        self.column += pos.column;
    }

    /// Subtracts `pos` from this position, field by field.
    pub fn sub(&mut self, pos: Self)
        requires
            pos.line <= old(self).line,
            pos.column <= old(self).column,
        ensures
            final(self).line == old(self).line - pos.line,
            final(self).column == old(self).column - pos.column,
    {
        self.line -= pos.line;
        self.column -= pos.column;
    }

    /// Whether this position is at or before `pos` in reading order.
    pub fn is_leading(&self, pos: &Self) -> (b: bool)
        ensures
            b == self.leads(*pos),
    {
        self.line < pos.line || (self.line == pos.line && self.column <= pos.column)
    }
}

/// `leads` is a total order on positions: any two positions are comparable,
/// two positions that lead each other are equal, and leading is transitive.
pub proof fn lemma_leading_is_total_order(a: Position, b: Position, c: Position)
    ensures
        a.leads(a),
        a.leads(b) || b.leads(a),
        a.leads(b) && b.leads(a) ==> a == b,
        a.leads(b) && b.leads(c) ==> a.leads(c),
{
}

} // verus!
