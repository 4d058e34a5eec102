//! The supported languages, their greeting words, and the resolution of a
//! language code to a language.
//!
//! A code is matched against a fixed set of lowercase patterns, ignoring
//! ASCII case; every pattern is lowercase ASCII, so the match accepts
//! exactly the case variants of the fixed codes and full names. Any other
//! code resolves to English by design: an unrecognized code is not an error.

use vstd::prelude::*;

verus! {

/// The languages a greeting can be produced in.
#[derive(Debug, Clone, Copy, PartialEq, Eq, Structural)]
pub enum Language {
    /// English
    English,
    /// Chinese (Simplified)
    Chinese,
    /// Spanish
    Spanish,
    /// French
    French,
    /// German
    German,
}

/// Holds when `c` is an ASCII uppercase letter.
pub open spec fn is_ascii_uppercase(c: char) -> bool {
    65 <= c as u32 <= 90
}

/// Holds when `c` equals the lowercase pattern character `l`, up to ASCII
/// case: either outright, or `c` is an ASCII uppercase letter whose
/// lowercase form is `l`.
pub open spec fn char_matches_lower(c: char, l: char) -> bool {
    c == l || (is_ascii_uppercase(c) && c as u32 + 32 == l as u32)
}

/// Holds when `code` equals the lowercase pattern `pattern`, ignoring
/// ASCII case in `code`.
pub open spec fn code_matches_spec(code: Seq<char>, pattern: Seq<char>) -> bool {
    &&& code.len() == pattern.len()
    &&& forall|i: int| 0 <= i < code.len() ==> char_matches_lower(#[trigger] code[i], pattern[i])
}

/// Holds when `code` is one of the recognized non-English codes: a fixed
/// short code or full language name, ignoring ASCII case. English has no
/// code of its own here; it is the default for everything unrecognized.
pub open spec fn code_recognized_spec(code: Seq<char>) -> bool {
    ||| code_matches_spec(code, "zh"@)
    ||| code_matches_spec(code, "chinese"@)
    ||| code_matches_spec(code, "es"@)
    ||| code_matches_spec(code, "spanish"@)
    ||| code_matches_spec(code, "fr"@)
    ||| code_matches_spec(code, "french"@)
    ||| code_matches_spec(code, "de"@)
    ||| code_matches_spec(code, "german"@)
}

/// Any code outside the recognized set resolves to English: the
/// default-to-English policy, stated once for every such code.
pub proof fn lemma_unrecognized_code_is_english(code: Seq<char>)
    requires
        !code_recognized_spec(code),
    ensures
        language_from_code_spec(code) == Language::English,
{
}

/// The language a code resolves to: the fixed short codes and full names,
/// ignoring ASCII case; everything else is English.
pub open spec fn language_from_code_spec(code: Seq<char>) -> Language {
    if code_matches_spec(code, "zh"@) || code_matches_spec(code, "chinese"@) {
        Language::Chinese
    } else if code_matches_spec(code, "es"@) || code_matches_spec(code, "spanish"@) {
        Language::Spanish
    } else if code_matches_spec(code, "fr"@) || code_matches_spec(code, "french"@) {
        Language::French
    } else if code_matches_spec(code, "de"@) || code_matches_spec(code, "german"@) {
        Language::German
    } else {
        Language::English
    }
}

/// The fixed greeting word of each language.
pub open spec fn greeting_word_spec(language: Language) -> Seq<char> {
    match language {
        Language::English => "Hello"@,
        Language::Chinese => "你好"@,
        Language::Spanish => "Hola"@,
        Language::French => "Bonjour"@,
        Language::German => "Hallo"@,
    }
}

/// The fixed order in which the supported languages are listed.
pub open spec fn supported_languages_spec() -> Seq<Language> {
    seq![
        Language::English,
        Language::Chinese,
        Language::Spanish,
        Language::French,
        Language::German,
    ]
}

fn char_matches(c: char, l: char) -> (result: bool)
    ensures
        result == char_matches_lower(c, l),
{
    if c == l {
        true
    } else {
        let cu = c as u32;
        let lu = l as u32;
        65 <= cu && cu <= 90 && cu + 32 == lu
    }
}

fn code_matches(code: &str, pattern: &str) -> (result: bool)
    ensures
        result == code_matches_spec(code@, pattern@),
{
    let n = code.unicode_len();
    if n != pattern.unicode_len() {
        return false;
    }
    let mut i: usize = 0;
    while i < n
        invariant
            i <= n,
            n == code@.len(),
            n == pattern@.len(),
            forall|j: int| 0 <= j < i ==> char_matches_lower(#[trigger] code@[j], pattern@[j]),
        decreases n - i,
    {
        if !char_matches(code.get_char(i), pattern.get_char(i)) {
            return false;
        }
        i = i + 1;
    }
    true
}

impl Language {
    /// Resolves a language code, ignoring ASCII case. Unknown codes
    /// resolve to English: that is a policy, not a failure.
    pub fn from_code(code: &str) -> (result: Self)
        ensures
            result == language_from_code_spec(code@),
    {
        if code_matches(code, "zh") || code_matches(code, "chinese") {
            Language::Chinese
        } else if code_matches(code, "es") || code_matches(code, "spanish") {
            Language::Spanish
        } else if code_matches(code, "fr") || code_matches(code, "french") {
            Language::French
        } else if code_matches(code, "de") || code_matches(code, "german") {
            Language::German
        } else {
            Language::English
        }
    }

    /// The greeting word of this language.
    pub fn greeting_word(&self) -> (result: &'static str)
        ensures
            result@ == greeting_word_spec(*self),
    {
        match self {
            Language::English => "Hello",
            Language::Chinese => "你好",
            Language::Spanish => "Hola",
            Language::French => "Bonjour",
            Language::German => "Hallo",
        }
    }
}

/// The five supported languages: exactly five, pairwise distinct, always
/// in the same order.
pub fn get_supported_languages() -> (result: Vec<Language>)
    ensures
        result@ == supported_languages_spec(),
        result@.len() == 5,
        forall|i: int, j: int|
            0 <= i < j < result@.len() ==> result@[i] != result@[j],
{
    let mut languages: Vec<Language> = Vec::new();
    languages.push(Language::English);
    languages.push(Language::Chinese);
    languages.push(Language::Spanish);
    languages.push(Language::French);
    languages.push(Language::German);
    proof {
        assert(languages@ =~= supported_languages_spec());
    }
    languages
}

} // verus!
