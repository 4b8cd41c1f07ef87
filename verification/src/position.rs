//! Where in a script something happened.

use vstd::prelude::*;

verus! {

/// A place in a script: a line and a column, both counted from one.
///
/// A failure that did not arise at a place in the script has no line, and
/// one at the beginning of a line has no column.
#[derive(Clone, Copy, Debug, PartialEq, Eq, Structural)]
pub struct Position {
    pub line: Option<usize>,
    pub column: Option<usize>,
}

impl Position {
    /// No place at all.
    pub fn none() -> (pos: Position)
        ensures
            pos == (Position { line: None, column: None }),
    {
        Position { line: None, column: None }
    }

    /// The beginning of line `line`.
    pub fn at_line(line: usize) -> (pos: Position)
        ensures
            pos == (Position { line: Some(line), column: None }),
    {
        Position { line: Some(line), column: None }
    }

    /// The line, counted from one, if there is a place.
    pub fn line(&self) -> (line: Option<usize>)
        ensures
            line == self.line,
    {
        self.line
    }

    /// The column, counted from one, unless the place is the beginning of a
    /// line or no place.
    pub fn position(&self) -> (column: Option<usize>)
        ensures
            column == self.column,
    {
        self.column
    }

    /// Whether this is no place.
    pub fn is_none(&self) -> (none: bool)
        ensures
            none == (self.line is None && self.column is None),
    {
        self.line.is_none() && self.column.is_none()
    }
}

} // verus!
