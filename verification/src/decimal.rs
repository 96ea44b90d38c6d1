//! Decimal rendering of account numbers.

use vstd::prelude::*;

verus! {

/// The character of a decimal digit.
pub open spec fn digit_char(digit: nat) -> char {
    (('0' as nat) + digit) as char
}

/// The decimal digits of a natural number, most significant first, without leading zeros.
pub open spec fn digits(number: nat) -> Seq<char>
    decreases number,
{
    if number < 10 {
        seq![digit_char(number)]
    } else {
        digits(number / 10).push(digit_char(number % 10))
    }
}

/// A whole number in decimal, with a minus sign in front of a negative one.
pub open spec fn decimal(number: int) -> Seq<char> {
    if number < 0 {
        seq!['-'] + digits((-number) as nat)
    } else {
        digits(number as nat)
    }
}

fn digit_text(digit: u64) -> (text: &'static str)
    requires
        digit < 10,
    ensures
        text@ == seq![digit_char(digit as nat)],
{
    proof {
        reveal_strlit("0");
        reveal_strlit("1");
        reveal_strlit("2");
        reveal_strlit("3");
        reveal_strlit("4");
        reveal_strlit("5");
        reveal_strlit("6");
        reveal_strlit("7");
        reveal_strlit("8");
        reveal_strlit("9");
    }
    match digit {
        0 => "0",
        1 => "1",
        2 => "2",
        3 => "3",
        4 => "4",
        5 => "5",
        6 => "6",
        7 => "7",
        8 => "8",
        _ => "9",
    }
}

fn render_digits(number: u64) -> (text: String)
    ensures
        text@ == digits(number as nat),
    decreases number,
{
    if number < 10 {
        String::from_str(digit_text(number))
    } else {
        let mut text = render_digits(number / 10);
        text.append(digit_text(number % 10));
        text
    }
}

/// Renders a whole number in decimal.
pub fn render_decimal(number: i64) -> (text: String)
    ensures
        text@ == decimal(number as int),
{
    if number >= 0 {
        render_digits(number as u64)
    } else {
        // The magnitude is taken one step short of the number, so that the least number has one.
        let magnitude: u64 = (-(number + 1)) as u64 + 1;
        let mut text = String::from_str("-");
        text.append(render_digits(magnitude).as_str());
        proof {
            reveal_strlit("-");
        }
        text
    }
}

} // verus!
