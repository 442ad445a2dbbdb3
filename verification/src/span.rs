//! Positions in a text by row and column, both counted from zero, and the
//! ranges and file spans made of them.

use vstd::prelude::*;

verus! {

#[verifier::external_type_specification]
#[verifier::external_body]
pub struct ExPathBuf(std::path::PathBuf);

/// `PathBuf::clone` returns a path equal to the one it was given.
pub assume_specification[ <std::path::PathBuf as Clone>::clone ](
    path: &std::path::PathBuf,
) -> (res: std::path::PathBuf)
    ensures
        res == *path,
;

/// The text that a path spells out.
pub uninterp spec fn path_text(path: std::path::PathBuf) -> Seq<char>;

/// Calls `PathBuf::from` on a string: the path that holds the string's
/// characters, unchanged.
#[verifier::external_body]
pub(crate) fn path_from(text: String) -> (path: std::path::PathBuf)
    ensures
        path_text(path) == text@,
{
    std::path::PathBuf::from(text)
}

/// A line of a text; the first line is 0.
#[derive(Clone, Copy, Debug, PartialEq, Eq, Structural)]
pub struct Row(pub u32);

/// A text cursor between characters, pointing at the next character of the
/// line; the first cursor of a line is 0.
#[derive(Clone, Copy, Debug, PartialEq, Eq, Structural)]
pub struct Column(pub u32);

/// A cursor in a text.
#[derive(Clone, Copy, Debug, PartialEq, Eq, Structural)]
pub struct Position {
    pub row: Row,
    pub col: Column,
}

impl Position {
    pub fn new(row: Row, col: Column) -> (p: Position)
        ensures
            p.row == row,
            p.col == col,
    {
        Position { row, col }
    }
}

/// The text between two cursors.
#[derive(Clone, Copy, Debug, PartialEq, Eq, Structural)]
pub struct Range {
    pub row_start: Row,
    pub row_end: Row,
    pub col_start: Column,
    pub col_end: Column,
}

impl Range {
    pub fn from_positions(start: Position, end: Position) -> (r: Range)
        ensures
            r.start() == start,
            r.end() == end,
    {
        Range { row_start: start.row, row_end: end.row, col_start: start.col, col_end: end.col }
    }

    pub open spec fn start(&self) -> Position {
        Position { row: self.row_start, col: self.col_start }
    }

    pub open spec fn end(&self) -> Position {
        Position { row: self.row_end, col: self.col_end }
    }

    #[verifier::when_used_as_spec(start)]
    pub fn exec_start(&self) -> (p: Position)
        ensures
            p == self.start(),
    {
        Position { row: self.row_start, col: self.col_start }
    }

    #[verifier::when_used_as_spec(end)]
    pub fn exec_end(&self) -> (p: Position)
        ensures
            p == self.end(),
    {
        Position { row: self.row_end, col: self.col_end }
    }
}

/// A cursor in a file.
#[derive(Clone, Debug, PartialEq, Eq)]
pub struct Location {
    pub file: std::path::PathBuf,
    pub position: Position,
}

/// A range in a file.
#[derive(Clone, Debug, PartialEq, Eq)]
pub struct Span {
    pub file: std::path::PathBuf,
    pub range: Range,
}

impl Span {
    pub fn from_range(range: Range, file: std::path::PathBuf) -> (s: Span)
        ensures
            s.range == range,
            s.file == file,
    {
        Span { file, range }
    }

    pub fn from_positions(start: Position, end: Position, file: std::path::PathBuf) -> (s: Span)
        ensures
            s.range.start() == start,
            s.range.end() == end,
            s.file == file,
    {
        Span { file, range: Range::from_positions(start, end) }
    }
}

} // verus!
