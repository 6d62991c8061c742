//! Differences between two texts as a list of operations.

use vstd::prelude::*;
use crate::text::same_text;

verus! {

/// One text difference operation.
#[derive(Debug, Clone, PartialEq)]
pub enum DiffOp {
    /// Keep text unchanged.
    Keep(String),
    /// Insert new text.
    Insert(String),
    /// Delete existing text.
    Delete(String),
    /// Replace the first text by the second.
    Replace(String, String),
}

/// A `DiffOp` over sequences of characters.
pub ghost enum DiffOpView {
    Keep(Seq<char>),
    Insert(Seq<char>),
    Delete(Seq<char>),
    Replace(Seq<char>, Seq<char>),
}

impl View for DiffOp {
    type V = DiffOpView;

    open spec fn view(&self) -> DiffOpView {
        match *self {
            DiffOp::Keep(a) => DiffOpView::Keep(a@),
            DiffOp::Insert(a) => DiffOpView::Insert(a@),
            DiffOp::Delete(a) => DiffOpView::Delete(a@),
            DiffOp::Replace(a, b) => DiffOpView::Replace(a@, b@),
        }
    }
}

/// The difference from `source` to `target`: one operation, which keeps
/// the text where the two are equal and replaces it as a whole where not.
pub open spec fn whole_text_diff(source: Seq<char>, target: Seq<char>) -> Seq<DiffOpView> {
    if source == target {
        seq![DiffOpView::Keep(source)]
    } else {
        seq![DiffOpView::Replace(source, target)]
    }
}

/// Text difference calculator.
pub struct DiffCalculator;

impl DiffCalculator {
    /// Calculates the difference between two texts.
    pub fn calculate_diff(source: &str, target: &str) -> (ops: Vec<DiffOp>)
        ensures
            Seq::new(ops@.len(), |i: int| ops@[i]@) == whole_text_diff(source@, target@),
    {
        let mut ops: Vec<DiffOp> = Vec::new();
        if !same_text(source, target) {
            ops.push(DiffOp::Replace(String::from_str(source), String::from_str(target)));
        } else {
            ops.push(DiffOp::Keep(String::from_str(source)));
        }
        assert(Seq::new(ops@.len(), |i: int| ops@[i]@) =~= whole_text_diff(source@, target@));
        ops
    }

    /// Applies operations to `text`. Operations are not interpreted yet: the
    /// result is `text`, whatever they are.
    pub fn apply_diff(text: &str, operations: &[DiffOp]) -> (r: String)
        ensures
            r@ == text@,
    {
        String::from_str(text)
    }
}

} // verus!
