//! Positions in a source text, as carried by reportable errors. They are made
//! by the constructors of `hurl_core`, and held here as plain values.

use vstd::prelude::*;

verus! {

/// A line and column in a source text. Real positions are 1-based.
#[derive(Clone, Copy, Debug, PartialEq, Eq, Structural)]
pub struct Pos {
    pub line: usize,
    pub column: usize,
}

/// A region of a source text, from `start` to `end`.
#[derive(Clone, Copy, Debug, PartialEq, Eq, Structural)]
pub struct SourceInfo {
    pub start: Pos,
    pub end: Pos,
}

/// Calls `hurl_core::reader::Pos::new`, which stores its two arguments as the
/// line and the column of the position it returns.
#[verifier::external_body]
fn core_pos(line: usize, column: usize) -> (p: Pos)
    ensures
        p == (Pos { line, column }),
{
    let p = hurl_core::reader::Pos::new(line, column);
    Pos { line: p.line, column: p.column }
}

/// Calls `hurl_core::ast::SourceInfo::new`, which stores its two arguments as
/// the start and the end of the region it returns.
#[verifier::external_body]
fn core_source_info(start: Pos, end: Pos) -> (s: SourceInfo)
    ensures
        s == (SourceInfo { start, end }),
{
    let from = hurl_core::reader::Pos { line: start.line, column: start.column };
    let to = hurl_core::reader::Pos { line: end.line, column: end.column };
    let s = hurl_core::ast::SourceInfo::new(from, to);
    SourceInfo {
        start: Pos { line: s.start.line, column: s.start.column },
        end: Pos { line: s.end.line, column: s.end.column },
    }
}

impl Pos {
    pub fn new(line: usize, column: usize) -> (p: Pos)
        ensures
            p == (Pos { line, column }),
    {
        core_pos(line, column)
    }
}

impl SourceInfo {
    pub fn new(start: Pos, end: Pos) -> (s: SourceInfo)
        ensures
            s == (SourceInfo { start, end }),
    {
        core_source_info(start, end)
    }

    /// The region that stands for "no location": line 0, column 0 at both
    /// ends. No real position has line 0.
    pub open spec fn spec_unlocated() -> SourceInfo {
        SourceInfo { start: Pos { line: 0, column: 0 }, end: Pos { line: 0, column: 0 } }
    }

    /// The placeholder carried by an error that arises where no source
    /// location is meaningful.
    pub fn unlocated() -> (s: SourceInfo)
        ensures
            s == Self::spec_unlocated(),
    {
        SourceInfo::new(Pos::new(0, 0), Pos::new(0, 0))
    }
}

} // verus!
