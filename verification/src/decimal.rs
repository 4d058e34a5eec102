//! Rendering a nonnegative integer as its decimal digit string.

use vstd::prelude::*;

verus! {

/// The digit character for a value below ten.
pub open spec fn decimal_digit_spec(d: nat) -> char
    recommends
        d < 10,
{
    if d == 0 {
        '0'
    } else if d == 1 {
        '1'
    } else if d == 2 {
        '2'
    } else if d == 3 {
        '3'
    } else if d == 4 {
        '4'
    } else if d == 5 {
        '5'
    } else if d == 6 {
        '6'
    } else if d == 7 {
        '7'
    } else if d == 8 {
        '8'
    } else {
        '9'
    }
}

/// The decimal digit string of `n`, most significant digit first, with no
/// leading zeros (a single `'0'` for zero).
pub open spec fn decimal_spec(n: nat) -> Seq<char>
    decreases n,
{
    if n < 10 {
        seq![decimal_digit_spec(n)]
    } else {
        decimal_spec(n / 10) + seq![decimal_digit_spec(n % 10)]
    }
}

fn decimal_digit(d: usize) -> (result: &'static str)
    requires
        d < 10,
    ensures
        result@ == seq![decimal_digit_spec(d as nat)],
{
    let result = if d == 0 {
        "0"
    } else if d == 1 {
        "1"
    } else if d == 2 {
        "2"
    } else if d == 3 {
        "3"
    } else if d == 4 {
        "4"
    } else if d == 5 {
        "5"
    } else if d == 6 {
        "6"
    } else if d == 7 {
        "7"
    } else if d == 8 {
        "8"
    } else {
        "9"
    };
    proof {
        reveal_strlit("0");
        reveal_strlit("1");
        reveal_strlit("2");
        reveal_strlit("3");
        reveal_strlit("4");
        reveal_strlit("5");
        reveal_strlit("6");
        reveal_strlit("7");
        reveal_strlit("8");
        reveal_strlit("9");
        assert(result@ =~= seq![decimal_digit_spec(d as nat)]);
    }
    result
}

/// Renders `n` in decimal.
pub fn to_decimal(n: usize) -> (result: String)
    ensures
        result@ == decimal_spec(n as nat),
    decreases n,
{
    if n < 10 {
        String::from_str(decimal_digit(n))
    } else {
        let mut prefix = to_decimal(n / 10);
        prefix.append(decimal_digit(n % 10));
        prefix
    }
}

} // verus!
