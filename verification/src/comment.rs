//! Comment syntax metadata.

use vstd::prelude::*;

verus! {

/// A block-comment delimiter pair, e.g. `/*` ... `*/`.
#[derive(Debug, Clone, Copy, PartialEq, Eq)]
pub struct BlockComment {
    pub start: &'static str,
    pub end: &'static str,
}

impl BlockComment {
    pub fn new(start: &'static str, end: &'static str) -> (c: Self)
        ensures
            c.start == start && c.end == end,
    {
        Self { start, end }
    }
}

/// The comment styles a language supports.
///
/// `line` lists line-comment prefixes (most languages have exactly one).
/// `block` lists block-comment delimiter pairs (often empty).
#[derive(Debug, Clone, Copy, PartialEq, Eq)]
pub struct CommentStyle {
    pub line: &'static [&'static str],
    pub block: &'static [BlockComment],
}

impl CommentStyle {
    /// A language with no known comment syntax.
    pub fn none() -> (c: CommentStyle)
        ensures
            c.line@.len() == 0 && c.block@.len() == 0,
    {
        CommentStyle { line: &[], block: &[] }
    }

    pub fn new(line: &'static [&'static str], block: &'static [BlockComment]) -> (c: Self)
        ensures
            c.line == line && c.block == block,
    {
        Self { line, block }
    }

    /// The primary (first) line-comment prefix, if any.
    pub fn primary_line(&self) -> (r: Option<&'static str>)
        ensures
            r == (if self.line@.len() > 0 {
                Some(self.line@[0])
            } else {
                None
            }),
    {
        if self.line.len() > 0 {
            Some(self.line[0])
        } else {
            None
        }
    }
}

} // verus!
