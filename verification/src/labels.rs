//! The text of the tick labels.

use vstd::prelude::*;
use vstd::string::*;

verus! {

/// The character for a decimal digit.
pub open spec fn spec_digit(d: nat) -> char {
    if d == 0 {
        '0'
    } else if d == 1 {
        '1'
    } else if d == 2 {
        '2'
    } else if d == 3 {
        '3'
    } else if d == 4 {
        '4'
    } else if d == 5 {
        '5'
    } else if d == 6 {
        '6'
    } else if d == 7 {
        '7'
    } else if d == 8 {
        '8'
    } else {
        '9'
    }
}

/// The decimal digits of `n`, most significant first, without padding.
pub open spec fn spec_decimal(n: nat) -> Seq<char>
    decreases n,
{
    if n < 10 {
        seq![spec_digit(n)]
    } else {
        spec_decimal(n / 10).push(spec_digit(n % 10))
    }
}

/// A frequency label: whole kilohertz with one decimal place, as in
/// `22.0kHz`.
pub open spec fn spec_frequency_label(khz: nat) -> Seq<char> {
    spec_decimal(khz) + seq!['.', '0', 'k', 'H', 'z']
}

/// A time label: minutes, a colon, and two digits of seconds, as in `1:05`.
pub open spec fn spec_time_label(seconds: nat) -> Seq<char> {
    spec_decimal(seconds / 60) + seq![
        ':',
        spec_digit((seconds % 60) / 10),
        spec_digit((seconds % 60) % 10),
    ]
}

/// A decibel label: the signed whole number and `dB`, as in `-120dB`.
pub open spec fn spec_decibel_label(db: int) -> Seq<char> {
    if db < 0 {
        seq!['-'] + spec_decimal((-db) as nat) + seq!['d', 'B']
    } else {
        spec_decimal(db as nat) + seq!['d', 'B']
    }
}

fn digit_str(d: u64) -> (s: &'static str)
    requires
        d < 10,
    ensures
        s@ == seq![spec_digit(d as nat)],
{
    proof {
        reveal_strlit("0");
        reveal_strlit("1");
        reveal_strlit("2");
        reveal_strlit("3");
        reveal_strlit("4");
        reveal_strlit("5");
        reveal_strlit("6");
        reveal_strlit("7");
        reveal_strlit("8");
        reveal_strlit("9");
    }
    let s = if d == 0 {
        "0"
    } else if d == 1 {
        "1"
    } else if d == 2 {
        "2"
    } else if d == 3 {
        "3"
    } else if d == 4 {
        "4"
    } else if d == 5 {
        "5"
    } else if d == 6 {
        "6"
    } else if d == 7 {
        "7"
    } else if d == 8 {
        "8"
    } else {
        "9"
    };
    assert(s@ =~= seq![spec_digit(d as nat)]);
    s
}

/// Writes `n` in decimal.
pub fn decimal(n: u64) -> (s: String)
    ensures
        s@ == spec_decimal(n as nat),
    decreases n,
{
    if n < 10 {
        String::from_str(digit_str(n))
    } else {
        let mut s = decimal(n / 10);
        s.append(digit_str(n % 10));
        assert(s@ =~= spec_decimal(n as nat));
        s
    }
}

/// The label of the tick at `khz` kilohertz.
pub fn frequency_label(khz: u32) -> (s: String)
    ensures
        s@ == spec_frequency_label(khz as nat),
{
    let mut s = decimal(khz as u64);
    proof {
        reveal_strlit(".0kHz");
    }
    s.append(".0kHz");
    assert(s@ =~= spec_frequency_label(khz as nat));
    s
}

/// The label of the tick at `seconds` seconds.
pub fn time_label(seconds: u64) -> (s: String)
    ensures
        s@ == spec_time_label(seconds as nat),
{
    let rest: u64 = seconds % 60;
    let mut s = decimal(seconds / 60);
    proof {
        reveal_strlit(":");
    }
    s.append(":");
    s.append(digit_str(rest / 10));
    s.append(digit_str(rest % 10));
    assert(s@ =~= spec_time_label(seconds as nat));
    s
}

/// The label of the tick at `db` decibels.
pub fn decibel_label(db: i32) -> (s: String)
    ensures
        s@ == spec_decibel_label(db as int),
{
    proof {
        reveal_strlit("-");
        reveal_strlit("dB");
    }
    if db < 0 {
        let magnitude: u64 = (-(db as i64)) as u64;
        let mut s = String::from_str("-");
        let digits = decimal(magnitude);
        s.append(digits.as_str());
        s.append("dB");
        assert(s@ =~= spec_decibel_label(db as int));
        s
    } else {
        let mut s = decimal(db as u64);
        s.append("dB");
        assert(s@ =~= spec_decibel_label(db as int));
        s
    }
}

} // verus!
