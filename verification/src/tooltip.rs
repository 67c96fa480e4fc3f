//! The text shown when the pointer rests on the icon: the processor load with
//! one decimal place.

use vstd::prelude::*;
use vstd::string::StringExecFns;
use crate::load::Percentage;

verus! {

/// The character for the digit `d`.
pub open spec fn digit(d: int) -> char {
    if d == 0 {
        '0'
    } else if d == 1 {
        '1'
    } else if d == 2 {
        '2'
    } else if d == 3 {
        '3'
    } else if d == 4 {
        '4'
    } else if d == 5 {
        '5'
    } else if d == 6 {
        '6'
    } else if d == 7 {
        '7'
    } else if d == 8 {
        '8'
    } else {
        '9'
    }
}

/// The digits of `n` in base ten, without leading zeros.
pub open spec fn decimal(n: int) -> Seq<char>
    decreases n,
{
    if n < 10 {
        seq![digit(n)]
    } else {
        decimal(n / 10).push(digit(n % 10))
    }
}

/// The text for a load of `tenths` tenths of a percent: `CPU: `, the whole
/// percents, a point, the tenths, and a percent sign.
pub open spec fn tooltip_text(tenths: int) -> Seq<char> {
    "CPU: "@ + decimal(tenths / 10) + seq!['.', digit(tenths % 10), '%']
}

/// The text of the digit `d`.
fn digit_text(d: u8) -> (text: &'static str)
    requires
        d < 10,
    ensures
        text@ == seq![digit(d as int)],
{
    proof {
        reveal_strlit("0");
        reveal_strlit("1");
        reveal_strlit("2");
        reveal_strlit("3");
        reveal_strlit("4");
        reveal_strlit("5");
        reveal_strlit("6");
        reveal_strlit("7");
        reveal_strlit("8");
        reveal_strlit("9");
    }
    let text: &'static str = if d == 0 {
        "0"
    } else if d == 1 {
        "1"
    } else if d == 2 {
        "2"
    } else if d == 3 {
        "3"
    } else if d == 4 {
        "4"
    } else if d == 5 {
        "5"
    } else if d == 6 {
        "6"
    } else if d == 7 {
        "7"
    } else if d == 8 {
        "8"
    } else {
        "9"
    };
    text
}

/// Writes the digits of `n` behind what `out` holds.
fn push_decimal(out: &mut String, n: u64)
    ensures
        final(out)@ == old(out)@ + decimal(n as int),
    decreases n,
{
    if n >= 10 {
        push_decimal(out, n / 10);
    }
    out.append(digit_text((n % 10) as u8));
}

/// The text shown for `load`, such as `CPU: 12.3%`.
pub fn tooltip_for(load: Percentage) -> (text: String)
    ensures
        text@ == tooltip_text(load@),
{
    let tenths: u64 = load.tenths() as u64;
    let mut text: String = "CPU: ".to_owned();
    push_decimal(&mut text, tenths / 10);
    text.append(".");
    text.append(digit_text((tenths % 10) as u8));
    text.append("%");
    proof {
        reveal_strlit(".");
        reveal_strlit("%");
    }
    text
}

} // verus!
