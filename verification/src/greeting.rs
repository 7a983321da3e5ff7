//! The greeting that the player answers a caller with.

use vstd::prelude::*;

verus! {

/// The character that stands for the decimal digit `digit`.
pub open spec fn digit_char(digit: nat) -> char
    recommends
        digit < 10,
{
    seq!['0', '1', '2', '3', '4', '5', '6', '7', '8', '9'][digit as int]
}

/// `value` written in decimal digits, without leading zeros.
pub open spec fn decimal(value: nat) -> Seq<char>
    decreases value,
{
    if value < 10 {
        seq![digit_char(value)]
    } else {
        decimal(value / 10).push(digit_char(value % 10))
    }
}

/// The greeting for a call made `epoch_ms` milliseconds after the epoch.
pub open spec fn spec_greeting(epoch_ms: nat) -> Seq<char> {
    "Hello world from Rust! Current epoch: "@ + decimal(epoch_ms)
}

/// The digits that are still to be written for `rest`: none once it is 0.
spec fn leading(rest: nat) -> Seq<char> {
    if rest == 0 {
        Seq::empty()
    } else {
        decimal(rest)
    }
}

/// The characters of `digits`, which holds the lowest digit first, from
/// the highest digit down.
spec fn written(digits: Seq<u8>) -> Seq<char>
    decreases digits.len(),
{
    if digits.len() == 0 {
        Seq::empty()
    } else {
        seq![digit_char(digits.last() as nat)] + written(digits.drop_last())
    }
}

fn digit_text(digit: u8) -> (text: &'static str)
    requires
        digit < 10,
    ensures
        text@ == seq![digit_char(digit as nat)],
{
    proof {
        reveal_strlit("0");
        reveal_strlit("1");
        reveal_strlit("2");
        reveal_strlit("3");
        reveal_strlit("4");
        reveal_strlit("5");
        reveal_strlit("6");
        reveal_strlit("7");
        reveal_strlit("8");
        reveal_strlit("9");
    }
    match digit {
        0 => "0",
        1 => "1",
        2 => "2",
        3 => "3",
        4 => "4",
        5 => "5",
        6 => "6",
        7 => "7",
        8 => "8",
        _ => "9",
    }
}

/// Adds `value`, written in decimal digits, at the end of `text`.
pub fn append_decimal(text: &mut String, value: u128)
    ensures
        final(text)@ == old(text)@ + decimal(value as nat),
{
    let mut digits: Vec<u8> = Vec::new();
    digits.push((value % 10) as u8);
    let mut rest: u128 = value / 10;
    assert(written(digits@) =~= seq![digit_char((value % 10) as nat)]) by {
        reveal_with_fuel(written, 2);
    }
    while rest > 0
        invariant
            decimal(value as nat) == leading(rest as nat) + written(digits@),
            forall|i: int| 0 <= i < digits.len() ==> digits[i] < 10,
        decreases rest,
    {
        let digit = (rest % 10) as u8;
        let ghost lower = digits@;
        digits.push(digit);
        assert(digits@.drop_last() =~= lower);
        rest = rest / 10;
    }
    let ghost start = text@;
    let mut left: usize = digits.len();
    assert(digits@.take(left as int) =~= digits@);
    while left > 0
        invariant
            left <= digits.len(),
            forall|i: int| 0 <= i < digits.len() ==> digits[i] < 10,
            start + written(digits@) == text@ + written(digits@.take(left as int)),
        decreases left,
    {
        assert(digits@.take(left as int).drop_last() =~= digits@.take(left - 1));
        text.append(digit_text(digits[left - 1]));
        left -= 1;
    }
}

/// The greeting for a call made `epoch_ms` milliseconds after the epoch.
pub fn greeting(epoch_ms: u128) -> (text: String)
    ensures
        text@ == spec_greeting(epoch_ms as nat),
{
    let mut text = String::from_str("Hello world from Rust! Current epoch: ");
    append_decimal(&mut text, epoch_ms);
    text
}

} // verus!
