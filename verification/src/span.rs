//! Source locations.

use vstd::prelude::*;

verus! {

/// A source location range within a Go file.
///
/// `Span::synthetic()` marks generated nodes that have no real source location.
#[derive(Debug, Clone, Copy, PartialEq, Eq, Hash)]
pub struct Span {
    pub start_byte: usize,
    pub end_byte: usize,
    pub start_row: usize,
    pub start_col: usize,
    pub end_row: usize,
    pub end_col: usize,
}

impl Span {
    /// The span that every generated node carries: all positions zero.
    pub open spec fn spec_synthetic() -> Span {
        Span { start_byte: 0, end_byte: 0, start_row: 0, start_col: 0, end_row: 0, end_col: 0 }
    }

    /// A span is synthetic when it covers no bytes at the start of the file.
    pub open spec fn spec_is_synthetic(self) -> bool {
        self.start_byte == 0 && self.end_byte == 0
    }

    /// Sentinel value for generated nodes that have no source location.
    pub fn synthetic() -> (s: Span)
        ensures
            s == Span::spec_synthetic(),
    {
        Span { start_byte: 0, end_byte: 0, start_row: 0, start_col: 0, end_row: 0, end_col: 0 }
    }

    /// Returns `true` if this span was created by `Span::synthetic()`.
    pub fn is_synthetic(&self) -> (b: bool)
        ensures
            b == self.spec_is_synthetic(),
    {
        self.start_byte == 0 && self.end_byte == 0
    }
}

/// The synthetic span is recognised as synthetic, and a span that ends after
/// byte zero is not.
pub proof fn lemma_synthetic_is_synthetic(s: Span)
    ensures
        Span::spec_synthetic().spec_is_synthetic(),
        s.end_byte > 0 ==> !s.spec_is_synthetic(),
{
}

} // verus!
