//! Span tracking: the regions of text that have been validated.

use vstd::prelude::*;

verus! {

/// A validated region `start..end` and when it was applied.
#[derive(Clone, Debug)]
pub struct Span {
    pub start: usize,
    pub end: usize,
    pub applied_at_ms: u64,
}

/// The validated spans, in the order they were recorded.
pub struct Tapestry {
    pub validated: Vec<Span>,
}

impl Tapestry {
    /// A tapestry without spans.
    pub fn new() -> (r: Self)
        ensures
            r.validated@ == Seq::<Span>::empty(),
    {
        Tapestry { validated: Vec::new() }
    }

    /// Records `span` after the spans already there.
    pub fn push(&mut self, span: Span)
        ensures
            final(self).validated@ == old(self).validated@.push(span),
    {
        self.validated.push(span);
    }
}

impl Default for Tapestry {
    fn default() -> (r: Self)
        ensures
            r.validated@ == Seq::<Span>::empty(),
    {
        Tapestry::new()
    }
}

} // verus!
