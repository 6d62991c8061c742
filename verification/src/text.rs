//! What the library needs to say about text: white space, words, trimming and
//! occurrence, with the standard library's string functions behind them.

use vstd::prelude::*;
use vstd::string::StringSliceAdditionalSpecFns;
use vstd::utf8::{encode_utf8, valid_utf8};

verus! {

/// The characters with the Unicode property `White_Space`.
pub open spec fn is_white_space(c: char) -> bool {
    let u = c as u32;
    (0x09 <= u && u <= 0x0D) || u == 0x20 || u == 0x85 || u == 0xA0 || u == 0x1680 || (0x2000 <= u
        && u <= 0x200A) || u == 0x2028 || u == 0x2029 || u == 0x202F || u == 0x205F || u == 0x3000
}

/// `word` occurs in `text` as a contiguous run of characters.
pub open spec fn mentions(text: Seq<char>, word: Seq<char>) -> bool {
    exists|i: int|
        0 <= i && i + word.len() <= text.len() && #[trigger] text.subrange(
            i,
            i + word.len(),
        ) == word
}

/// The maximal runs of characters without white space, in order. Read from
/// the left: white space ends a word, any other character continues the word
/// before it or starts a new one.
pub open spec fn words(s: Seq<char>) -> Seq<Seq<char>>
    decreases s.len(),
{
    if s.len() == 0 {
        Seq::empty()
    } else if is_white_space(s.last()) {
        words(s.drop_last())
    } else if s.len() > 1 && !is_white_space(s[s.len() - 2]) {
        let before = words(s.drop_last());
        before.drop_last().push(before.last().push(s.last()))
    } else {
        words(s.drop_last()).push(seq![s.last()])
    }
}

/// `s` without the white space at its start.
pub open spec fn trim_start(s: Seq<char>) -> Seq<char>
    decreases s.len(),
{
    if s.len() > 0 && is_white_space(s.first()) {
        trim_start(s.drop_first())
    } else {
        s
    }
}

/// `s` without the white space at its end.
pub open spec fn trim_end(s: Seq<char>) -> Seq<char>
    decreases s.len(),
{
    if s.len() > 0 && is_white_space(s.last()) {
        trim_end(s.drop_last())
    } else {
        s
    }
}

/// `s` without the white space at both ends.
pub open spec fn trimmed(s: Seq<char>) -> Seq<char> {
    trim_end(trim_start(s))
}

/// The position, in characters, of the last white space in `s`.
pub open spec fn last_white_space(s: Seq<char>) -> Option<int>
    decreases s.len(),
{
    if s.len() == 0 {
        None
    } else if is_white_space(s.last()) {
        Some(s.len() - 1)
    } else {
        last_white_space(s.drop_last())
    }
}

/// The position in bytes at which the character at position `k` of `s`
/// starts in the UTF-8 encoding of `s`.
pub open spec fn byte_offset(s: Seq<char>, k: int) -> nat {
    encode_utf8(s.subrange(0, k)).len()
}

/// The views of a vector of strings, one by one.
pub open spec fn texts<T: View<V = Seq<char>>>(v: Seq<T>) -> Seq<Seq<char>> {
    Seq::new(v.len(), |i: int| v[i]@)
}

/// `str` equality: the same characters in the same order.
#[verifier::external_body]
pub(crate) fn same_text(a: &str, b: &str) -> (r: bool)
    ensures
        r == (a@ == b@),
{
    a == b
}

/// `str::contains` with a string pattern: whether `word` occurs in `text` as
/// a contiguous run. The search is over the bytes of valid UTF-8, where a run
/// of bytes matches exactly where the run of characters does.
#[verifier::external_body]
pub(crate) fn contains_text(text: &str, word: &str) -> (r: bool)
    ensures
        r == mentions(text@, word@),
{
    text.contains(word)
}

/// `str::split_whitespace`: the sub-slices of `text` separated by any amount
/// of white space, each copied into a `String`.
#[verifier::external_body]
pub(crate) fn split_words(text: &str) -> (r: Vec<String>)
    ensures
        texts(r@) == words(text@),
{
    text.split_whitespace().map(|s| s.to_string()).collect()
}

/// `str::trim`: the slice with leading and trailing white space removed.
#[verifier::external_body]
pub(crate) fn trim_text<'a>(text: &'a str) -> (r: &'a str)
    ensures
        r@ == trimmed(text@),
{
    text.trim()
}

/// `str::rfind` with `char::is_whitespace` as the pattern: the byte index at
/// which the last white-space character of `text` starts, if it has one.
#[verifier::external_body]
pub(crate) fn rfind_white_space(text: &str) -> (r: Option<usize>)
    ensures
        match last_white_space(text@) {
            Some(k) => r == Some(byte_offset(text@, k) as usize) && byte_offset(text@, k)
                < text.spec_bytes().len(),
            None => r.is_none(),
        },
{
    text.rfind(char::is_whitespace)
}

/// `std::str::from_utf8`: the bytes as a string slice when they are valid
/// UTF-8, and nothing when they are not.
#[verifier::external_body]
pub(crate) fn text_of_bytes<'a>(bytes: &'a [u8]) -> (r: Option<&'a str>)
    ensures
        match r {
            Some(s) => valid_utf8(bytes@) && s.spec_bytes() == bytes@,
            None => !valid_utf8(bytes@),
        },
{
    std::str::from_utf8(bytes).ok()
}

} // verus!
