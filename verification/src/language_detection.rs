//! The languages the pipeline tells apart, and a first guess at a text's
//! language.

use vstd::prelude::*;

verus! {

/// Supported languages for detection.
#[derive(Debug, Clone, PartialEq)]
pub enum Language {
    English,
    Spanish,
    French,
    German,
    /// Unknown or unsupported language.
    Unknown,
}

impl Language {
    /// The language code as characters.
    pub open spec fn code_text(self) -> Seq<char> {
        match self {
            Language::English => "en"@,
            Language::Spanish => "es"@,
            Language::French => "fr"@,
            Language::German => "de"@,
            Language::Unknown => "unknown"@,
        }
    }

    /// The language code: two letters, or `unknown`.
    pub fn code(&self) -> (r: &'static str)
        ensures
            r@ == self.code_text(),
    {
        match self {
            Language::English => "en",
            Language::Spanish => "es",
            Language::French => "fr",
            Language::German => "de",
            Language::Unknown => "unknown",
        }
    }
}

/// The language guessed for `text`: unknown for the empty text, English for
/// every other one.
pub fn detect_language(text: &str) -> (r: Language)
    ensures
        r == (if text@.len() == 0 {
            Language::Unknown
        } else {
            Language::English
        }),
{
    if text.is_empty() {
        Language::Unknown
    } else {
        Language::English
    }
}

} // verus!
