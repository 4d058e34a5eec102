//! A small greeting library: pure string-construction functions with
//! multilingual support and basic name validation.

mod decimal;
mod greeting;
mod language;
mod validate;

pub use validate::GreetingError;
pub use validate::GreetingResult;
pub use validate::MAX_NAME_LEN;
pub use validate::error_message_spec;
pub use validate::is_whitespace_spec;
pub use validate::name_valid_spec;
pub use validate::trim;
pub use validate::trim_end_spec;
pub use validate::trim_spec;
pub use validate::trim_start_spec;
pub use validate::validate_name;
pub use validate::validate_name_spec;

pub use decimal::decimal_digit_spec;
pub use decimal::decimal_spec;
pub use decimal::to_decimal;

pub use greeting::greet;
pub use greeting::greet_formal;
pub use greeting::greet_formal_spec;
pub use greeting::greet_multilingual;
pub use greeting::greet_multilingual_spec;
pub use greeting::greet_spec;
pub use greeting::lemma_english_code_gives_plain_greeting;
pub use greeting::safe_greet;
pub use greeting::safe_greet_multilingual;
pub use language::Language;
pub use language::char_matches_lower;
pub use language::code_matches_spec;
pub use language::code_recognized_spec;
pub use language::lemma_unrecognized_code_is_english;
pub use language::get_supported_languages;
pub use language::greeting_word_spec;
pub use language::is_ascii_uppercase;
pub use language::language_from_code_spec;
pub use language::supported_languages_spec;
