//! The active region: the stretch of text around the caret that corrections
//! may look at.

use vstd::prelude::*;
use vstd::utf8::{decode_utf8, is_char_boundary};
use vstd::string::StringSliceAdditionalSpecFns;
use crate::text::{split_words, texts, words};

verus! {

/// How far the region reaches to either side of the caret, in bytes.
pub const REGION_REACH: usize = 50;

/// A region of text, in byte positions.
#[derive(Debug, Clone, PartialEq)]
pub struct ActiveRegion {
    /// Start position in text.
    pub start: usize,
    /// End position in text.
    pub end: usize,
    /// Number of words in region.
    pub word_count: usize,
}

impl ActiveRegion {
    /// A region with the given bounds and word count.
    pub fn new(start: usize, end: usize, word_count: usize) -> (r: Self)
        ensures
            r.start == start,
            r.end == end,
            r.word_count == word_count,
    {
        ActiveRegion { start, end, word_count }
    }

    /// Whether `position` lies within the region, both ends included.
    pub fn contains(&self, position: usize) -> (r: bool)
        ensures
            r == (self.start <= position && position <= self.end),
    {
        position >= self.start && position <= self.end
    }

    /// The length of the region; zero when the end lies before the start.
    pub fn length(&self) -> (r: usize)
        ensures
            r == (if self.end >= self.start {
                self.end - self.start
            } else {
                0
            }),
    {
        self.end.saturating_sub(self.start)
    }
}

/// Where the region around `caret` starts in a text of `len` bytes.
pub open spec fn region_start(caret: usize, len: usize) -> usize {
    let back: usize = if caret >= REGION_REACH {
        (caret - REGION_REACH) as usize
    } else {
        0
    };
    if back <= len {
        back
    } else {
        len
    }
}

/// Where the region around `caret` ends in a text of `len` bytes.
pub open spec fn region_end(caret: usize, len: usize) -> usize {
    if caret + REGION_REACH <= len {
        (caret + REGION_REACH) as usize
    } else {
        len
    }
}

/// Active region policy for calculating boundaries.
pub struct ActiveRegionPolicy {
    /// Target number of words in region.
    pub target_words: usize,
}

impl ActiveRegionPolicy {
    /// A policy with the given target word count.
    pub fn new(target_words: usize) -> (r: Self)
        ensures
            r.target_words == target_words,
    {
        ActiveRegionPolicy { target_words }
    }

    /// The region of up to `REGION_REACH` bytes to either side of `caret`,
    /// cut off at the ends of `text`, with the number of words in it. Both
    /// ends of the region must fall between characters of `text`.
    pub fn calculate_region(&self, text: &str, caret: usize) -> (r: ActiveRegion)
        requires
            is_char_boundary(text.spec_bytes(), region_start(caret, text.len()) as int),
            is_char_boundary(text.spec_bytes(), region_end(caret, text.len()) as int),
        ensures
            r.start == region_start(caret, text.len()),
            r.end == region_end(caret, text.len()),
            r.word_count == words(
                decode_utf8(text.spec_bytes().subrange(r.start as int, r.end as int)),
            ).len(),
    {
        let len: usize = text.len();
        let back: usize = caret.saturating_sub(REGION_REACH);
        let start: usize = if back <= len {
            back
        } else {
            len
        };
        let reach: usize = caret.saturating_add(REGION_REACH);
        let end: usize = if reach <= len {
            reach
        } else {
            len
        };
        proof {
            vstd::utf8::encode_utf8_valid_utf8(text@);
        }
        let (head, _) = text.split_at(end);
        proof {
            vstd::utf8::encode_utf8_valid_utf8(head@);
            if start < end {
                vstd::utf8::is_char_boundary_iff_is_leading_byte(text.spec_bytes(), start as int);
                vstd::utf8::is_char_boundary_iff_is_leading_byte(head.spec_bytes(), start as int);
            } else {
                vstd::utf8::is_char_boundary_start_end_of_seq(head.spec_bytes());
            }
        }
        let (_, region) = head.split_at(start);
        let found = split_words(region);
        proof {
            assert(region.spec_bytes() =~= text.spec_bytes().subrange(start as int, end as int));
            vstd::utf8::encode_utf8_decode_utf8(region@);
            assert(texts(found@).len() == found@.len());
        }
        ActiveRegion::new(start, end, found.len())
    }
}

impl Default for ActiveRegionPolicy {
    fn default() -> (r: Self)
        ensures
            r.target_words == 20,
    {
        ActiveRegionPolicy::new(20)
    }
}

} // verus!
