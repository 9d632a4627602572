//! Rendering of numbers as text, for the messages of the faults.

use vstd::prelude::*;
use vstd::string::StringExecFns;

verus! {

/// The character that stands for the digit `digit` in bases up to sixteen,
/// in lower case.
pub open spec fn digit_char(digit: nat) -> char {
    if digit == 0 {
        '0'
    } else if digit == 1 {
        '1'
    } else if digit == 2 {
        '2'
    } else if digit == 3 {
        '3'
    } else if digit == 4 {
        '4'
    } else if digit == 5 {
        '5'
    } else if digit == 6 {
        '6'
    } else if digit == 7 {
        '7'
    } else if digit == 8 {
        '8'
    } else if digit == 9 {
        '9'
    } else if digit == 10 {
        'a'
    } else if digit == 11 {
        'b'
    } else if digit == 12 {
        'c'
    } else if digit == 13 {
        'd'
    } else if digit == 14 {
        'e'
    } else {
        'f'
    }
}

/// The decimal digits of `value`, most significant first, without leading
/// zeros; zero is the single digit `0`.
pub open spec fn decimal(value: nat) -> Seq<char>
    decreases value,
{
    if value < 10 {
        seq![digit_char(value)]
    } else {
        decimal(value / 10).push(digit_char(value % 10))
    }
}

/// The last `count` hexadecimal digits of `value`, most significant first,
/// with leading zeros.
pub open spec fn hexadecimal(value: nat, count: nat) -> Seq<char>
    decreases count,
{
    if count == 0 {
        Seq::empty()
    } else {
        hexadecimal(value / 16, (count - 1) as nat).push(digit_char(value % 16))
    }
}

/// The one-character text of a digit.
pub fn digit_text(digit: u8) -> (text: &'static str)
    requires
        digit < 16,
    ensures
        text@ == seq![digit_char(digit as nat)],
{
    proof {
        reveal_strlit("0");
        reveal_strlit("1");
        reveal_strlit("2");
        reveal_strlit("3");
        reveal_strlit("4");
        reveal_strlit("5");
        reveal_strlit("6");
        reveal_strlit("7");
        reveal_strlit("8");
        reveal_strlit("9");
        reveal_strlit("a");
        reveal_strlit("b");
        reveal_strlit("c");
        reveal_strlit("d");
        reveal_strlit("e");
        reveal_strlit("f");
    }
    let text: &'static str = match digit {
        0 => "0",
        1 => "1",
        2 => "2",
        3 => "3",
        4 => "4",
        5 => "5",
        6 => "6",
        7 => "7",
        8 => "8",
        9 => "9",
        10 => "a",
        11 => "b",
        12 => "c",
        13 => "d",
        14 => "e",
        _ => "f",
    };
    assert(text@ =~= seq![digit_char(digit as nat)]);
    text
}

/// Renders `value` in decimal.
pub fn decimal_text(value: u64) -> (text: String)
    ensures
        text@ == decimal(value as nat),
{
    let mut text = String::from_str(digit_text((value % 10) as u8));
    let mut rest: u64 = value / 10;
    while rest > 0
        invariant
            rest > 0 ==> decimal(value as nat) == decimal(rest as nat) + text@,
            rest == 0 ==> decimal(value as nat) == text@,
        decreases rest,
    {
        let head = String::from_str(digit_text((rest % 10) as u8));
        proof {
            let tail = text@;
            let digit = seq![digit_char((rest % 10) as nat)];
            if rest >= 10 {
                assert(decimal((rest / 10) as nat).push(digit_char((rest % 10) as nat)) + tail
                    =~= decimal((rest / 10) as nat) + (digit + tail));
            }
        }
        text = head.concat(text.as_str());
        rest = rest / 10;
    }
    text
}

/// Renders the last `count` hexadecimal digits of `value`, with leading
/// zeros.
pub fn hexadecimal_text(value: u64, count: u8) -> (text: String)
    ensures
        text@ == hexadecimal(value as nat, count as nat),
{
    let mut text = String::new();
    let mut rest: u64 = value;
    let mut done: u8 = 0;
    while done < count
        invariant
            done <= count,
            hexadecimal(value as nat, count as nat) == hexadecimal(
                rest as nat,
                (count - done) as nat,
            ) + text@,
        decreases count - done,
    {
        let head = String::from_str(digit_text((rest % 16) as u8));
        proof {
            let tail = text@;
            let digit = seq![digit_char((rest % 16) as nat)];
            assert(hexadecimal((rest / 16) as nat, (count - done - 1) as nat).push(
                digit_char((rest % 16) as nat),
            ) + tail =~= hexadecimal((rest / 16) as nat, (count - done - 1) as nat) + (digit
                + tail));
        }
        text = head.concat(text.as_str());
        rest = rest / 16;
        done = done + 1;
    }
    text
}

} // verus!
