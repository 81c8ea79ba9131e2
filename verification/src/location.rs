//! Source positions: a row/column pair attached to every token, node and error.

use vstd::prelude::*;

verus! {

/// A position in the source text: `row` counts physical lines from 1,
/// `column` counts characters from 0. A `(0, 0)` location is the synthetic
/// default used for injected marker tokens.
#[derive(Clone, Copy, Debug, PartialEq, Eq, Structural, Hash)]
pub struct Location {
    pub row: u32,
    pub column: u32,
}

/// Lexicographic order on (row, column).
pub open spec fn loc_le(a: Location, b: Location) -> bool {
    a.row < b.row || (a.row == b.row && a.column <= b.column)
}

impl Location {
    pub fn new(row: u32, column: u32) -> (r: Location)
        ensures
            r.row == row,
            r.column == column,
    {
        Location { row, column }
    }

    pub fn row(&self) -> (r: u32)
        ensures
            r == self.row,
    {
        self.row
    }

    pub fn column(&self) -> (r: u32)
        ensures
            r == self.column,
    {
        self.column
    }

    /// Lexicographic comparison, the executable twin of `loc_le`.
    pub fn le(&self, other: &Location) -> (r: bool)
        ensures
            r == loc_le(*self, *other),
    {
        self.row < other.row || (self.row == other.row && self.column <= other.column)
    }
}

impl Default for Location {
    /// The synthetic position given to injected marker tokens.
    fn default() -> (r: Location)
        ensures
            r.row == 0,
            r.column == 0,
    {
        Location { row: 0, column: 0 }
    }
}

} // verus!
