//! Decimal rendering of unsigned integers.

use vstd::prelude::*;
use vstd::string::*;

verus! {

/// The character of a single decimal digit.
pub open spec fn digit_char(d: nat) -> char
    recommends
        d < 10,
{
    if d == 0 {
        '0'
    } else if d == 1 {
        '1'
    } else if d == 2 {
        '2'
    } else if d == 3 {
        '3'
    } else if d == 4 {
        '4'
    } else if d == 5 {
        '5'
    } else if d == 6 {
        '6'
    } else if d == 7 {
        '7'
    } else if d == 8 {
        '8'
    } else {
        '9'
    }
}

/// The decimal numeral of `n`: most significant digit first, no leading zero,
/// and the single digit `0` for zero.
pub open spec fn decimal(n: nat) -> Seq<char>
    decreases n,
{
    if n < 10 {
        seq![digit_char(n)]
    } else {
        decimal(n / 10).push(digit_char(n % 10))
    }
}

/// The value of a decimal digit character.
pub open spec fn digit_value(c: char) -> nat {
    if c == '1' {
        1
    } else if c == '2' {
        2
    } else if c == '3' {
        3
    } else if c == '4' {
        4
    } else if c == '5' {
        5
    } else if c == '6' {
        6
    } else if c == '7' {
        7
    } else if c == '8' {
        8
    } else if c == '9' {
        9
    } else {
        0
    }
}

/// The number that a numeral denotes, read from the most significant digit.
pub open spec fn numeral_value(s: Seq<char>) -> nat
    decreases s.len(),
{
    if s.len() == 0 {
        0
    } else {
        numeral_value(s.drop_last()) * 10 + digit_value(s.last())
    }
}

/// A numeral produced by `decimal` denotes the number it was made from, so two
/// different numbers never share a numeral.
pub proof fn lemma_decimal_round_trip(n: nat)
    ensures
        numeral_value(decimal(n)) == n,
        decimal(n).len() >= 1,
    decreases n,
{
    if n < 10 {
        let s = seq![digit_char(n)];
        assert(s.drop_last().len() == 0);
        assert(s.last() == digit_char(n));
        assert(numeral_value(s.drop_last()) == 0);
    } else {
        lemma_decimal_round_trip(n / 10);
        let s = decimal(n / 10).push(digit_char(n % 10));
        assert(s.drop_last() =~= decimal(n / 10));
        assert(s.last() == digit_char(n % 10));
    }
}

/// The one-character text of a decimal digit.
fn digit_str(d: u8) -> (s: &'static str)
    requires
        d < 10,
    ensures
        s@ == seq![digit_char(d as nat)],
{
    proof {
        reveal_strlit("0");
        reveal_strlit("1");
        reveal_strlit("2");
        reveal_strlit("3");
        reveal_strlit("4");
        reveal_strlit("5");
        reveal_strlit("6");
        reveal_strlit("7");
        reveal_strlit("8");
        reveal_strlit("9");
    }
    let s: &'static str = if d == 0 {
        "0"
    } else if d == 1 {
        "1"
    } else if d == 2 {
        "2"
    } else if d == 3 {
        "3"
    } else if d == 4 {
        "4"
    } else if d == 5 {
        "5"
    } else if d == 6 {
        "6"
    } else if d == 7 {
        "7"
    } else if d == 8 {
        "8"
    } else {
        "9"
    };
    assert(s@ =~= seq![digit_char(d as nat)]);
    s
}

/// Renders `n` in decimal.
pub fn to_decimal(n: u128) -> (text: String)
    ensures
        text@ == decimal(n as nat),
    decreases n,
{
    if n < 10 {
        String::from_str(digit_str(n as u8))
    } else {
        let head = to_decimal(n / 10);
        let text = head.concat(digit_str((n % 10) as u8));
        assert(text@ =~= decimal(n as nat));
        text
    }
}

} // verus!
