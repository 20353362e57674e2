//! Decimal rendering of power-mode codes and the tooltip strings built from
//! them.

use vstd::prelude::*;
use vstd::string::*;

verus! {

/// The character for one decimal digit.
pub open spec fn digit_char(d: int) -> char {
    if d == 0 {
        '0'
    } else if d == 1 {
        '1'
    } else if d == 2 {
        '2'
    } else if d == 3 {
        '3'
    } else if d == 4 {
        '4'
    } else if d == 5 {
        '5'
    } else if d == 6 {
        '6'
    } else if d == 7 {
        '7'
    } else if d == 8 {
        '8'
    } else {
        '9'
    }
}

/// The decimal digits of a non-negative number, most significant first.
pub open spec fn dec_digits(n: nat) -> Seq<char>
    decreases n,
{
    if n < 10 {
        seq![digit_char(n as int)]
    } else {
        dec_digits(n / 10) + seq![digit_char((n % 10) as int)]
    }
}

/// The decimal rendering of an integer, with a leading minus sign when it is
/// negative.
pub open spec fn dec_int(n: int) -> Seq<char> {
    if n < 0 {
        seq!['-'] + dec_digits((-n) as nat)
    } else {
        dec_digits(n as nat)
    }
}

/// The tooltip shown for a power-mode code.
pub open spec fn tooltip_spec(code: int) -> Seq<char> {
    "Power mode: "@ + dec_int(code)
}

/// The tooltip shown before any power-mode event has arrived.
pub open spec fn initial_tooltip_spec() -> Seq<char> {
    "Power mode: Unknown"@
}

/// A one-character string for a decimal digit.
fn digit_str(d: u64) -> (s: &'static str)
    requires
        d < 10,
    ensures
        s@ == seq![digit_char(d as int)],
{
    proof {
        reveal_strlit("0");
        reveal_strlit("1");
        reveal_strlit("2");
        reveal_strlit("3");
        reveal_strlit("4");
        reveal_strlit("5");
        reveal_strlit("6");
        reveal_strlit("7");
        reveal_strlit("8");
        reveal_strlit("9");
    }
    match d {
        0 => "0",
        1 => "1",
        2 => "2",
        3 => "3",
        4 => "4",
        5 => "5",
        6 => "6",
        7 => "7",
        8 => "8",
        _ => "9",
    }
}

/// Render a non-negative number in decimal.
pub fn format_u64(n: u64) -> (s: String)
    ensures
        s@ == dec_digits(n as nat),
    decreases n,
{
    if n < 10 {
        String::from_str(digit_str(n))
    } else {
        let mut s = format_u64(n / 10);
        s.append(digit_str(n % 10));
        s
    }
}

/// Render a signed code in decimal, with a minus sign when negative.
pub fn format_i32(n: i32) -> (s: String)
    ensures
        s@ == dec_int(n as int),
{
    if n < 0 {
        let mag: u64 = (-(n as i64)) as u64;
        proof {
            reveal_strlit("-");
        }
        let mut s = String::from_str("-");
        let digits = format_u64(mag);
        s.append(digits.as_str());
        s
    } else {
        format_u64(n as u64)
    }
}

/// Build the tooltip text for a power-mode code.
pub fn tooltip_for(code: i32) -> (s: String)
    ensures
        s@ == tooltip_spec(code as int),
{
    let mut s = String::from_str("Power mode: ");
    let digits = format_i32(code);
    s.append(digits.as_str());
    s
}

/// Build the tooltip text shown before any power-mode event.
pub fn initial_tooltip() -> (s: String)
    ensures
        s@ == initial_tooltip_spec(),
{
    String::from_str("Power mode: Unknown")
}

} // verus!
