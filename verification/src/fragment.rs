//! Sentence fragments: the last sentence of a text, once it is complete.

use vstd::prelude::*;
use vstd::string::StrSliceExecFns;
use unicode_segmentation::UnicodeSegmentation;
use crate::text::{texts, trim_text, trimmed};

verus! {

/// The sentences that `unicode_segmentation` finds in a text: its substrings
/// between sentence boundaries of Unicode Standard Annex 29 that hold a
/// letter or a digit, in order.
pub uninterp spec fn unicode_sentences_of(text: Seq<char>) -> Seq<Seq<char>>;

/// `UnicodeSegmentation::unicode_sentences`, collected: the sentences of
/// `text` as sub-slices of it, in order. Which they are is a function of the
/// text alone; the contract names it and says no more.
#[verifier::external_body]
fn sentences<'a>(text: &'a str) -> (r: Vec<&'a str>)
    ensures
        texts(r@) == unicode_sentences_of(text@),
{
    text.unicode_sentences().collect()
}

/// The characters that end a sentence: full stop, question mark, exclamation
/// mark, ideographic full stop and line feed.
pub open spec fn is_terminator(c: char) -> bool {
    c == '.' || c == '?' || c == '!' || c == '\u{3002}' || c == '\n'
}

/// The fragment that a sentence gives: the sentence without the white space
/// around it, if that is not empty and ends in a terminator.
pub open spec fn fragment_in(sentence: Seq<char>) -> Option<Seq<char>> {
    let t = trimmed(sentence);
    if t.len() > 0 && is_terminator(t.last()) {
        Some(t)
    } else {
        None
    }
}

/// The fragment that a list of sentences gives: that of the last sentence.
pub open spec fn fragment_of(sentences: Seq<Seq<char>>) -> Option<Seq<char>> {
    if sentences.len() == 0 {
        None
    } else {
        fragment_in(sentences.last())
    }
}

/// The characters of an optional slice.
pub open spec fn slice_text(s: Option<&str>) -> Option<Seq<char>> {
    match s {
        Some(t) => Some(t@),
        None => None,
    }
}

/// Whether `c` ends a sentence.
pub fn is_sentence_terminator(c: char) -> (r: bool)
    ensures
        r == is_terminator(c),
{
    c == '.' || c == '?' || c == '!' || c == '\u{3002}' || c == '\n'
}

/// The fragment in one sentence: the trimmed sentence when it ends in a
/// terminator, else nothing.
pub fn complete_fragment<'a>(sentence: &'a str) -> (r: Option<&'a str>)
    ensures
        slice_text(r) == fragment_in(sentence@),
{
    let t = trim_text(sentence);
    let n: usize = t.unicode_len();
    if n == 0 {
        return None;
    }
    if is_sentence_terminator(t.get_char(n - 1)) {
        Some(t)
    } else {
        None
    }
}

/// Extracts the last complete sentence of a text.
pub struct FragmentExtractor;

impl FragmentExtractor {
    pub fn new() -> Self {
        FragmentExtractor
    }

    /// The last sentence of `text`, trimmed, if it ends in a terminator.
    pub fn extract_fragment<'a>(&self, text: &'a str) -> (r: Option<&'a str>)
        ensures
            slice_text(r) == fragment_of(unicode_sentences_of(text@)),
    {
        let found = sentences(text);
        let n: usize = found.len();
        assert(texts(found@).len() == n);
        if n == 0 {
            return None;
        }
        assert(texts(found@).last() == found@[n - 1]@);
        complete_fragment(found[n - 1])
    }
}

} // verus!
