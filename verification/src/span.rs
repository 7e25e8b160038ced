//! Byte spans into the original source text.
//!
//! Every node of the concrete and raw syntax trees, and every error, carries
//! one of these so that diagnostics can point back into the source. A span is
//! a half-open byte range `start..end`.

use vstd::prelude::*;

verus! {

/// A byte offset into the source text.
pub type ByteIndex = usize;

/// A half-open byte range in the source text.
#[derive(Clone, Copy, PartialEq, Eq, Structural, Debug)]
pub struct Span {
    pub start: ByteIndex,
    pub end: ByteIndex,
}

impl Span {
    /// Build the span `start..end`.
    pub fn new(start: ByteIndex, end: ByteIndex) -> (r: Span)
        ensures
            r.start == start,
            r.end == end,
    {
        Span { start, end }
    }

    /// The smallest range that begins where `self` begins and ends where
    /// `other` ends; used to make a parent node's span enclose its children.
    pub fn to(self, other: Span) -> (r: Span)
        ensures
            r.start == self.start,
            r.end == other.end,
    {
        Span { start: self.start, end: other.end }
    }
}

} // verus!
