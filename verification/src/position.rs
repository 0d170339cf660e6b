//! The span model: a file path plus 1-based (line, column) start and end
//! coordinates, as the tokenizer reports them.

use vstd::prelude::*;

verus! {

/// A span in a source file: path plus 1-based (line, column) start and end.
#[derive(Clone, Debug)]
pub struct Position {
    pub path: String,
    pub start_line: usize,
    pub start_col: usize,
    pub end_line: usize,
    pub end_col: usize,
}

impl Position {
    /// Coordinates are 1-based and the start line is no later than the end
    /// line.
    pub open spec fn wf(self) -> bool {
        &&& 1 <= self.start_line
        &&& 1 <= self.start_col
        &&& self.start_line <= self.end_line
    }

    /// Make a position from a path and two (line, column) pairs.
    pub fn new(path: String, start: (usize, usize), end: (usize, usize)) -> (r: Self)
        ensures
            r.path == path,
            r.start_line == start.0,
            r.start_col == start.1,
            r.end_line == end.0,
            r.end_col == end.1,
    {
        Position {
            path,
            start_line: start.0,
            start_col: start.1,
            end_line: end.0,
            end_col: end.1,
        }
    }

    /// The path of the source file, as given.
    pub fn path(&self) -> (r: &str)
        ensures
            r@ == self.path@,
    {
        self.path.as_str()
    }

    /// The 1-based (line, column) pair where the span starts.
    pub fn start(&self) -> (r: (usize, usize))
        ensures
            r.0 == self.start_line,
            r.1 == self.start_col,
    {
        (self.start_line, self.start_col)
    }

    /// The 1-based (line, column) pair where the span ends.
    pub fn end(&self) -> (r: (usize, usize))
        ensures
            r.0 == self.end_line,
            r.1 == self.end_col,
    {
        (self.end_line, self.end_col)
    }
}

} // verus!
