//! The greeting constructors: plain, formal and multilingual.

use vstd::prelude::*;

use crate::language::Language;
use crate::language::greeting_word_spec;
use crate::language::language_from_code_spec;
use crate::validate::GreetingError;
use crate::validate::GreetingResult;
use crate::validate::name_valid_spec;
use crate::validate::trim;
use crate::validate::trim_spec;
use crate::validate::validate_name;
use crate::validate::validate_name_spec;

verus! {

/// The greeting produced for `name`: `"Hello, {name}!"`.
pub open spec fn greet_spec(name: Seq<char>) -> Seq<char> {
    "Hello, "@ + name + "!"@
}

/// The formal greeting produced for `name` and `title`:
/// `"Good day, {title} {name}!"`.
pub open spec fn greet_formal_spec(name: Seq<char>, title: Seq<char>) -> Seq<char> {
    "Good day, "@ + title + " "@ + name + "!"@
}

/// The multilingual greeting produced for `name` and `code`:
/// `"{word}, {name}!"`, where `word` is the greeting word of the language
/// that `code` resolves to.
pub open spec fn greet_multilingual_spec(name: Seq<char>, code: Seq<char>) -> Seq<char> {
    greeting_word_spec(language_from_code_spec(code)) + ", "@ + name + "!"@
}

/// Returns `"Hello, {name}!"`. No validation: defined for every input,
/// the empty name included.
pub fn greet(name: &str) -> (result: String)
    ensures
        result@ == greet_spec(name@),
{
    let prefix = String::from_str("Hello, ");
    let with_name = prefix.concat(name);
    let result = with_name.concat("!");
    proof {
        assert(result@ =~= greet_spec(name@));
    }
    result
}

/// Returns `"Good day, {title} {name}!"`. No validation: both strings are
/// used verbatim.
pub fn greet_formal(name: &str, title: &str) -> (result: String)
    ensures
        result@ == greet_formal_spec(name@, title@),
{
    let prefix = String::from_str("Good day, ");
    let with_title = prefix.concat(title);
    let with_space = with_title.concat(" ");
    let with_name = with_space.concat(name);
    let result = with_name.concat("!");
    proof {
        assert(result@ =~= greet_formal_spec(name@, title@));
    }
    result
}

/// Returns `"{word}, {name}!"` in the language that `language_code`
/// resolves to; an unrecognized code falls back to English.
pub fn greet_multilingual(name: &str, language_code: &str) -> (result: String)
    ensures
        result@ == greet_multilingual_spec(name@, language_code@),
{
    let language = Language::from_code(language_code);
    let greeting = language.greeting_word();
    let word = String::from_str(greeting);
    let with_sep = word.concat(", ");
    let with_name = with_sep.concat(name);
    let result = with_name.concat("!");
    proof {
        assert(result@ =~= greet_multilingual_spec(name@, language_code@));
    }
    result
}

/// Validates `name`, then greets its trimmed form. Succeeds exactly on
/// the names that `validate_name` accepts, and propagates its error
/// otherwise.
pub fn safe_greet(name: &str) -> (result: GreetingResult<String>)
    ensures
        result is Ok <==> name_valid_spec(name@),
        result is Ok ==> result->Ok_0@ == greet_spec(trim_spec(name@)),
        result is Err ==> Err::<(), GreetingError>(result->Err_0) == validate_name_spec(name@),
{
    match validate_name(name) {
        Ok(()) => {
            let trimmed = trim(name);
            Ok(greet(trimmed))
        },
        Err(error) => Err(error),
    }
}

/// Validates `name`, then greets its trimmed form in the language that
/// `language_code` resolves to. Succeeds exactly on the names that
/// `validate_name` accepts, and propagates its error otherwise.
pub fn safe_greet_multilingual(name: &str, language_code: &str) -> (result: GreetingResult<
    String,
>)
    ensures
        result is Ok <==> name_valid_spec(name@),
        result is Ok ==> result->Ok_0@ == greet_multilingual_spec(
            trim_spec(name@),
            language_code@,
        ),
        result is Err ==> Err::<(), GreetingError>(result->Err_0) == validate_name_spec(name@),
{
    match validate_name(name) {
        Ok(()) => {
            let trimmed = trim(name);
            Ok(greet_multilingual(trimmed, language_code))
        },
        Err(error) => Err(error),
    }
}

/// A code that resolves to English produces exactly the plain greeting:
/// for every name, the multilingual greeting under such a code equals
/// `greet` of the same name. In particular any unrecognized code, which
/// resolves to English by policy, greets in English.
pub proof fn lemma_english_code_gives_plain_greeting(name: Seq<char>, code: Seq<char>)
    requires
        language_from_code_spec(code) == Language::English,
    ensures
        greet_multilingual_spec(name, code) == greet_spec(name),
{
    reveal_strlit("Hello");
    reveal_strlit("Hello, ");
    reveal_strlit(", ");
    assert(greet_multilingual_spec(name, code) =~= greet_spec(name));
}

} // verus!
