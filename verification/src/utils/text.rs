//! Decimal rendering of integers and small text helpers.

use vstd::prelude::*;
use vstd::string::*;

verus! {

/// The character for a decimal digit.
pub open spec fn digit_char(d: nat) -> char {
    if d == 0 {
        '0'
    } else if d == 1 {
        '1'
    } else if d == 2 {
        '2'
    } else if d == 3 {
        '3'
    } else if d == 4 {
        '4'
    } else if d == 5 {
        '5'
    } else if d == 6 {
        '6'
    } else if d == 7 {
        '7'
    } else if d == 8 {
        '8'
    } else {
        '9'
    }
}

/// Decimal text of a natural number, without leading zeros.
pub open spec fn decimal_text(n: nat) -> Seq<char>
    decreases n,
{
    if n < 10 {
        seq![digit_char(n)]
    } else {
        decimal_text(n / 10) + seq![digit_char(n % 10)]
    }
}

fn digit_str(d: u64) -> (s: &'static str)
    requires
        d < 10,
    ensures
        s@ == seq![digit_char(d as nat)],
{
    proof {
        reveal_strlit("0");
        reveal_strlit("1");
        reveal_strlit("2");
        reveal_strlit("3");
        reveal_strlit("4");
        reveal_strlit("5");
        reveal_strlit("6");
        reveal_strlit("7");
        reveal_strlit("8");
        reveal_strlit("9");
    }
    let s = if d == 0 {
        "0"
    } else if d == 1 {
        "1"
    } else if d == 2 {
        "2"
    } else if d == 3 {
        "3"
    } else if d == 4 {
        "4"
    } else if d == 5 {
        "5"
    } else if d == 6 {
        "6"
    } else if d == 7 {
        "7"
    } else if d == 8 {
        "8"
    } else {
        "9"
    };
    assert(s@ =~= seq![digit_char(d as nat)]);
    s
}

/// Renders an integer in decimal.
pub fn u64_to_decimal(n: u64) -> (text: String)
    ensures
        text@ == decimal_text(n as nat),
    decreases n,
{
    if n < 10 {
        String::from_str(digit_str(n))
    } else {
        let mut text = u64_to_decimal(n / 10);
        text.append(digit_str(n % 10));
        text
    }
}

/// The values of a list of texts, in order.
pub open spec fn text_views(texts: Seq<String>) -> Seq<Seq<char>> {
    texts.map_values(|t: String| t@)
}

/// `prefix` followed by `tail`, as a new string.
pub fn join(prefix: &str, tail: &str) -> (text: String)
    ensures
        text@ == prefix@ + tail@,
{
    let mut text = String::from_str(prefix);
    text.append(tail);
    text
}

} // verus!
