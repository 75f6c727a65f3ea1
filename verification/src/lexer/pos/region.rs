//! A labelled span between two positions.
use vstd::prelude::*;

use super::Position;

verus! {

/// A span of source text between two positions, with a label.
#[derive(Debug)]
pub struct Region {
    pub start: Position,
    pub end: Position,
    label: String,
}

/// The mathematical value of a [`Region`].
pub ghost struct RegionView {
    pub start: Position,
    pub end: Position,
    pub label: Seq<char>,
}

impl View for Region {
    type V = RegionView;

    closed spec fn view(&self) -> RegionView {
        RegionView { start: self.start, end: self.end, label: self.label@ }
    }
}

impl Clone for Region {
    fn clone(&self) -> (r: Self)
        ensures
            r@ == self@,
    {
        Region { start: self.start, end: self.end, label: self.label.clone() }
    }
}

impl Region {
    /// The label that a region gets when none is given.
    pub open spec fn default_label() -> Seq<char> {
        "Region"@
    }

    /// A region is well formed when its end is not before its start.
    pub open spec fn wf(&self) -> bool {
        self@.start.leads(self@.end)
    }

    /// Whether `pos` lies in the region, both ends included.
    pub open spec fn contains(&self, pos: Position) -> bool {
        self@.start.leads(pos) && pos.leads(self@.end)
    }

    pub fn new(start: Position, end: Position, name: Option<String>) -> (r: Self)
        ensures
            r@.start == start,
            r@.end == end,
            r@.label == match name {
                Some(v) => v@,
                None => Self::default_label(),
            },
    {
        Self {
            start,
            end,
            label: match name {
                None => "Region".to_string(),
                Some(v) => v,
            },
        }
    }

    /// The region from line `line` to line `last`, both at column zero.
    pub fn from(line: usize, last: usize) -> (r: Self)
        ensures
            r@ == (RegionView {
                start: Position { line, column: 0 },
                end: Position { line: last, column: 0 },
                label: Self::default_label(),
            }),
    {
        Self::create(line, 0, last, 0)
    }

    /// The region between two positions given by their lines and columns.
    pub fn create(start_ln: usize, start_col: usize, end_ln: usize, end_col: usize) -> (r: Self)
        ensures
            r@ == (RegionView {
                start: Position { line: start_ln, column: start_col },
                end: Position { line: end_ln, column: end_col },
                label: Self::default_label(),
            }),
    {
        Self::new(Position::new(start_ln, start_col), Position::new(end_ln, end_col), None)
    }

    /// Whether `pos` lies between the start and the end of the region.
    pub fn includes(&self, pos: &Position) -> (b: bool)
        ensures
            b == self.contains(*pos),
    {
        self.start.is_leading(pos) && pos.is_leading(&self.end)
    }

    /// The label of the region.
    pub fn get_name(&self) -> (name: String)
        ensures
            name@ == self@.label,
    {
        self.label.clone()
    }

    /// Moves the end of the region to `pos` and returns a copy of the result.
    pub fn expand_to(&mut self, pos: &Position) -> (r: Self)
        ensures
            final(self)@ == (RegionView { end: *pos, ..old(self)@ }),
            r@ == final(self)@,
    {
        self.end = *pos;
        self.clone()
    }

    /// Moves the end of the region back to `pos`, which lies inside the
    /// region, and returns a copy of the result.
    pub fn shrink_to(&mut self, pos: &Position) -> (r: Self)
        requires
            old(self).contains(*pos),
        ensures
            final(self)@ == (RegionView { end: *pos, ..old(self)@ }),
            final(self).wf(),
            r@ == final(self)@,
    {
        self.end = *pos;
        self.clone()
    }

    /// The text `[Line: l | Column: c]` for the start of the region.
    pub fn to_string(&self) -> (s: String)
        ensures
            s@ == "[Line: "@ + crate::text::decimal(self@.start.line as nat) + " | Column: "@
                + crate::text::decimal(self@.start.column as nat) + "]"@,
    {
        let mut s = "[Line: ".to_string();
        crate::text::push_decimal(&mut s, self.start.line);
        s.append(" | Column: ");
        crate::text::push_decimal(&mut s, self.start.column);
        s.append("]");
        s
    }
}

} // verus!
