//! Name validation: whitespace trimming, the length rule, and the
//! validation errors with their rendered messages.

use vstd::prelude::*;

use crate::decimal::decimal_spec;
use crate::decimal::to_decimal;

verus! {

/// The largest character count a trimmed name may have.
pub const MAX_NAME_LEN: usize = 100;

/// Why a name was rejected.
#[derive(Debug, Clone, PartialEq)]
pub enum GreetingError {
    /// The name is empty or all whitespace.
    EmptyName,
    /// The language code is not supported. Reserved for a strict mode:
    /// the current resolution never produces it, because unknown codes
    /// default to English.
    InvalidLanguage(String),
    /// The trimmed name has more than the allowed number of characters;
    /// carries the observed character count.
    NameTooLong(usize),
}

/// The result of an operation that validates its name.
pub type GreetingResult<T> = Result<T, GreetingError>;

/// Holds when `c` has the Unicode `White_Space` property: the characters
/// that trimming removes.
pub open spec fn is_whitespace_spec(c: char) -> bool {
    ||| c == '\t'
    ||| c == '\n'
    ||| c == '\u{b}'
    ||| c == '\u{c}'
    ||| c == '\r'
    ||| c == ' '
    ||| c == '\u{85}'
    ||| c == '\u{a0}'
    ||| c == '\u{1680}'
    ||| (0x2000 <= c as u32 && c as u32 <= 0x200a)
    ||| c == '\u{2028}'
    ||| c == '\u{2029}'
    ||| c == '\u{202f}'
    ||| c == '\u{205f}'
    ||| c == '\u{3000}'
}

fn is_whitespace_char(c: char) -> (result: bool)
    ensures
        result == is_whitespace_spec(c),
{
    let u = c as u32;
    c == '\t' || c == '\n' || c == '\u{b}' || c == '\u{c}' || c == '\r' || c == ' '
        || c == '\u{85}' || c == '\u{a0}' || c == '\u{1680}' || (0x2000 <= u && u <= 0x200a)
        || c == '\u{2028}' || c == '\u{2029}' || c == '\u{202f}' || c == '\u{205f}'
        || c == '\u{3000}'
}

/// `s` with its leading whitespace removed.
pub open spec fn trim_start_spec(s: Seq<char>) -> Seq<char>
    decreases s.len(),
{
    if s.len() == 0 {
        s
    } else if is_whitespace_spec(s[0]) {
        trim_start_spec(s.drop_first())
    } else {
        s
    }
}

/// `s` with its trailing whitespace removed.
pub open spec fn trim_end_spec(s: Seq<char>) -> Seq<char>
    decreases s.len(),
{
    if s.len() == 0 {
        s
    } else if is_whitespace_spec(s[s.len() - 1]) {
        trim_end_spec(s.drop_last())
    } else {
        s
    }
}

/// `s` with both leading and trailing whitespace removed: the canonical
/// form a name is validated and greeted in.
pub open spec fn trim_spec(s: Seq<char>) -> Seq<char> {
    trim_end_spec(trim_start_spec(s))
}

/// Removes leading and trailing whitespace.
pub fn trim(s: &str) -> (result: &str)
    ensures
        result@ == trim_spec(s@),
{
    let n = s.unicode_len();
    let mut start: usize = 0;
    proof {
        assert(s@.skip(0) =~= s@);
    }
    while start < n && is_whitespace_char(s.get_char(start))
        invariant
            start <= n,
            n == s@.len(),
            trim_start_spec(s@) == trim_start_spec(s@.skip(start as int)),
        decreases n - start,
    {
        proof {
            assert(s@.skip(start as int).drop_first() =~= s@.skip(start as int + 1));
        }
        start = start + 1;
    }
    proof {
        assert(trim_start_spec(s@) == s@.skip(start as int));
        assert(s@.skip(start as int) =~= s@.subrange(start as int, n as int));
    }
    let mut end: usize = n;
    while end > start && is_whitespace_char(s.get_char(end - 1))
        invariant
            start <= end <= n,
            n == s@.len(),
            trim_start_spec(s@) == s@.skip(start as int),
            trim_end_spec(s@.skip(start as int)) == trim_end_spec(
                s@.subrange(start as int, end as int),
            ),
        decreases end,
    {
        proof {
            let u = s@.subrange(start as int, end as int);
            assert(u[u.len() - 1] == s@[end - 1]);
            assert(u.drop_last() =~= s@.subrange(start as int, end as int - 1));
        }
        end = end - 1;
    }
    proof {
        assert(trim_spec(s@) == s@.subrange(start as int, end as int));
    }
    s.substring_char(start, end)
}

/// The validation verdict for a name: `EmptyName` when the trimmed name
/// is empty, `NameTooLong` with the trimmed character count when it is
/// over the limit, and success otherwise.
pub open spec fn validate_name_spec(name: Seq<char>) -> Result<(), GreetingError> {
    if trim_spec(name).len() == 0 {
        Err(GreetingError::EmptyName)
    } else if trim_spec(name).len() > MAX_NAME_LEN {
        Err(GreetingError::NameTooLong(trim_spec(name).len() as usize))
    } else {
        Ok(())
    }
}

/// Holds when `name` passes validation: trimmed, it has at least one and
/// at most the allowed number of characters.
pub open spec fn name_valid_spec(name: Seq<char>) -> bool {
    0 < trim_spec(name).len() <= MAX_NAME_LEN
}

/// Validates a name: the trimmed form must be nonempty and at most
/// `MAX_NAME_LEN` characters long (character count, not byte count).
pub fn validate_name(name: &str) -> (result: GreetingResult<()>)
    ensures
        result == validate_name_spec(name@),
        result is Ok <==> name_valid_spec(name@),
{
    let trimmed = trim(name);
    let len = trimmed.unicode_len();
    if len == 0 {
        Err(GreetingError::EmptyName)
    } else if len > MAX_NAME_LEN {
        Err(GreetingError::NameTooLong(len))
    } else {
        Ok(())
    }
}

impl GreetingError {
    /// The human-readable description of this error.
    pub fn message(&self) -> (result: String)
        ensures
            result@ == error_message_spec(*self),
    {
        match self {
            GreetingError::EmptyName => String::from_str("Name cannot be empty"),
            GreetingError::InvalidLanguage(code) => {
                let mut text = String::from_str("Unsupported language code: ");
                text.append(code.as_str());
                text
            },
            GreetingError::NameTooLong(len) => {
                let mut text = String::from_str("Name too long (");
                let count = to_decimal(*len);
                text.append(count.as_str());
                text.append(" characters), maximum is 100");
                proof {
                    assert(text@ =~= error_message_spec(*self));
                }
                text
            },
        }
    }
}

/// The message of each error.
pub open spec fn error_message_spec(error: GreetingError) -> Seq<char> {
    match error {
        GreetingError::EmptyName => "Name cannot be empty"@,
        GreetingError::InvalidLanguage(code) => "Unsupported language code: "@ + code@,
        GreetingError::NameTooLong(len) => "Name too long ("@ + decimal_spec(len as nat)
            + " characters), maximum is 100"@,
    }
}

} // verus!
