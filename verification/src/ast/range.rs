use vstd::prelude::*;
use vstd::std_specs::cmp::PartialEqSpecImpl;

verus! {

/// A position in a document as tree-sitter counts it: row and byte column.
#[derive(PartialEq, Eq, Structural, Clone, Copy, Debug)]
pub struct Point {
    pub row: usize,
    pub column: usize,
}

/// A tree-sitter range: byte offsets and points of both ends.
#[derive(PartialEq, Eq, Structural, Clone, Copy, Debug)]
pub struct TsRange {
    pub start_byte: usize,
    pub end_byte: usize,
    pub start_point: Point,
    pub end_point: Point,
}

/// A position in a document as LSP counts it: line and character.
#[derive(PartialEq, Eq, Structural, Clone, Copy, Debug)]
pub struct Position {
    pub line: u32,
    pub character: u32,
}

/// An LSP range.
#[derive(PartialEq, Eq, Structural, Clone, Copy, Debug)]
pub struct LspRange {
    pub start: Position,
    pub end: Position,
}

impl Point {
    pub fn new(row: usize, column: usize) -> (r: Self)
        ensures
            r.row == row,
            r.column == column,
    {
        Point { row, column }
    }
}

impl Position {
    pub fn new(line: u32, character: u32) -> (r: Self)
        ensures
            r.line == line,
            r.character == character,
    {
        Position { line, character }
    }
}

/// The LSP position of a point: row and column, each cut to 32 bits.
pub open spec fn position_of(p: Point) -> Position {
    Position { line: p.row as u32, character: p.column as u32 }
}

/// The LSP range of a tree-sitter range.
pub open spec fn lsp_range_of(r: TsRange) -> LspRange {
    LspRange { start: position_of(r.start_point), end: position_of(r.end_point) }
}

/// The LSP position of a point: row and column, each cut to 32 bits.
pub fn point_to_position(p: Point) -> (r: Position)
    ensures
        r == position_of(p),
{
    Position { line: p.row as u32, character: p.column as u32 }
}

/// The LSP range of a tree-sitter range.
pub fn tree_sitter_range_to_lsp_range(range: &TsRange) -> (r: LspRange)
    ensures
        r == lsp_range_of(*range),
{
    LspRange { start: point_to_position(range.start_point), end: point_to_position(range.end_point) }
}

/// A tree-sitter range that compares equal to the same tree-sitter range
/// and to its LSP range.
#[derive(Clone, Copy, Debug)]
pub struct Span(pub TsRange);

impl Span {
    /// The LSP range of the span.
    pub fn lsp(&self) -> (r: LspRange)
        ensures
            r == lsp_range_of(self.0),
    {
        tree_sitter_range_to_lsp_range(&self.0)
    }

    /// The tree-sitter range of the span.
    pub fn ts(&self) -> (r: &TsRange)
        ensures
            *r == self.0,
    {
        &self.0
    }

    /// The span of a tree-sitter range.
    pub fn from_range(range: TsRange) -> (r: Span)
        ensures
            r.0 == range,
    {
        Span(range)
    }
}

impl PartialEq<TsRange> for Span {
    fn eq(&self, other: &TsRange) -> (r: bool) {
        self.0 == *other
    }
}

impl PartialEqSpecImpl<TsRange> for Span {
    open spec fn obeys_eq_spec() -> bool {
        true
    }

    open spec fn eq_spec(&self, other: &TsRange) -> bool {
        self.0 == *other
    }
}

impl PartialEq<LspRange> for Span {
    fn eq(&self, other: &LspRange) -> (r: bool) {
        tree_sitter_range_to_lsp_range(&self.0) == *other
    }
}

impl PartialEqSpecImpl<LspRange> for Span {
    open spec fn obeys_eq_spec() -> bool {
        true
    }

    open spec fn eq_spec(&self, other: &LspRange) -> bool {
        lsp_range_of(self.0) == *other
    }
}

} // verus!
