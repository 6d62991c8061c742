//! Merging streamed tokens into a text.

use vstd::prelude::*;
use crate::llm::Token;

verus! {

/// `buffer` with `token` appended, after a single space unless `buffer` is
/// empty.
pub open spec fn appended(buffer: Seq<char>, token: Seq<char>) -> Seq<char> {
    if buffer.len() == 0 {
        token
    } else {
        buffer.push(' ') + token
    }
}

/// Collects tokens into one text, separated by single spaces.
pub struct Merger {
    buffer: String,
}

impl View for Merger {
    type V = Seq<char>;

    closed spec fn view(&self) -> Seq<char> {
        self.buffer@
    }
}

impl Merger {
    /// A merger that starts from `initial_text`.
    pub fn new(initial_text: &str) -> (r: Self)
        ensures
            r@ == initial_text@,
    {
        Merger { buffer: String::from_str(initial_text) }
    }

    /// Appends `token` to the text.
    pub fn apply_token(&mut self, token: &Token)
        ensures
            final(self)@ == appended(old(self)@, token@),
    {
        if !self.buffer.as_str().is_empty() {
            proof {
                reveal_strlit(" ");
            }
            self.buffer.append(" ");
            assert(self.buffer@ =~= old(self).buffer@.push(' '));
        }
        self.buffer.append(token.as_str());
        assert(self.buffer@ =~= appended(old(self)@, token@));
    }

    /// The text merged so far.
    pub fn get_result(&self) -> (r: &str)
        ensures
            r@ == self@,
    {
        self.buffer.as_str()
    }
}

} // verus!
