//! Token streams: where the tokens of a correction come from.

use vstd::prelude::*;
use crate::text::{split_words, texts, words};

verus! {

/// One token of a streamed correction.
pub type Token = String;

/// A source of tokens, handed out one at a time until it is exhausted.
pub trait TokenStream {
    /// The next token, or `None` when the stream has ended.
    fn next_token(&mut self) -> Option<Token>;
}

/// A stream over the words of a fixed text.
pub struct StubStream {
    tokens: Vec<Token>,
    cursor: usize,
}

impl View for StubStream {
    type V = Seq<Seq<char>>;

    /// The tokens not handed out yet, in order.
    closed spec fn view(&self) -> Seq<Seq<char>> {
        if self.cursor <= self.tokens@.len() {
            texts(self.tokens@).subrange(self.cursor as int, self.tokens@.len() as int)
        } else {
            Seq::empty()
        }
    }
}

impl StubStream {
    /// A stream of the words of `text`, split at white space.
    pub fn new(text: &str) -> (r: Self)
        ensures
            r@ == words(text@),
    {
        let tokens = split_words(text);
        let r = StubStream { tokens, cursor: 0 };
        assert(r@ =~= words(text@));
        r
    }
}

impl TokenStream for StubStream {
    /// Hands out the first remaining token, if any is left.
    fn next_token(&mut self) -> (r: Option<Token>)
        ensures
            old(self)@.len() > 0 ==> r.is_some() && r.unwrap()@ == old(self)@[0] && final(self)@
                == old(self)@.drop_first(),
            old(self)@.len() == 0 ==> r.is_none() && final(self)@ == old(self)@,
    {
        if self.cursor < self.tokens.len() {
            let token = self.tokens[self.cursor].clone();
            self.cursor += 1;
            assert(self@ =~= old(self)@.drop_first());
            Some(token)
        } else {
            assert(self@ =~= Seq::<Seq<char>>::empty());
            None
        }
    }
}

/// Placeholder for a remote model stream.
pub struct OpenAIStream;

/// Placeholder for an on-device model stream.
pub struct CoreMLStream;

} // verus!
