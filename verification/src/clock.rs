//! Clock rendering of decay durations.
//!
//! A decay estimate comes out of the model as a whole number of
//! seconds; for tooltips it is shown as `hours:minutes:seconds` with
//! each part zero-padded to two digits. The decimal rendering is
//! verified against a recursive numeral specification.

use vstd::prelude::*;
use vstd::string::*;

verus! {

/// The character for one decimal digit.
pub open spec fn digit_char(d: int) -> char
    recommends
        0 <= d < 10,
{
    if d == 0 {
        '0'
    } else if d == 1 {
        '1'
    } else if d == 2 {
        '2'
    } else if d == 3 {
        '3'
    } else if d == 4 {
        '4'
    } else if d == 5 {
        '5'
    } else if d == 6 {
        '6'
    } else if d == 7 {
        '7'
    } else if d == 8 {
        '8'
    } else {
        '9'
    }
}

/// The decimal numeral of `n`, most significant digit first, with no
/// leading zeros (the numeral of zero is the single digit zero).
pub open spec fn dec_rep(n: int) -> Seq<char>
    recommends
        n >= 0,
    decreases n,
{
    if n < 10 {
        seq![digit_char(n)]
    } else {
        dec_rep(n / 10).push(digit_char(n % 10))
    }
}

/// The decimal numeral of `n`, left-padded with zeros to at least two
/// digits.
pub open spec fn dec_rep2(n: int) -> Seq<char>
    recommends
        n >= 0,
{
    if n < 10 {
        seq!['0'] + dec_rep(n)
    } else {
        dec_rep(n)
    }
}

/// The clock rendering of a duration of `total` whole seconds: hours,
/// minutes and seconds separated by colons, each zero-padded to two
/// digits (hours keep more digits when they need them).
pub open spec fn spec_hms(total: int) -> Seq<char>
    recommends
        total >= 0,
{
    dec_rep2(total / 60 / 60) + ":"@ + dec_rep2((total / 60) % 60) + ":"@ + dec_rep2(total % 60)
}

/// The one-character string for one decimal digit.
fn digit_str(d: u64) -> (r: &'static str)
    requires
        d < 10,
    ensures
        r@ == seq![digit_char(d as int)],
{
    proof {
        reveal_strlit("0");
        reveal_strlit("1");
        reveal_strlit("2");
        reveal_strlit("3");
        reveal_strlit("4");
        reveal_strlit("5");
        reveal_strlit("6");
        reveal_strlit("7");
        reveal_strlit("8");
        reveal_strlit("9");
    }
    let r = if d == 0 {
        "0"
    } else if d == 1 {
        "1"
    } else if d == 2 {
        "2"
    } else if d == 3 {
        "3"
    } else if d == 4 {
        "4"
    } else if d == 5 {
        "5"
    } else if d == 6 {
        "6"
    } else if d == 7 {
        "7"
    } else if d == 8 {
        "8"
    } else {
        "9"
    };
    proof {
        assert(r@ =~= seq![digit_char(d as int)]);
    }
    r
}

/// Renders `n` in decimal.
pub fn to_decimal(n: u64) -> (r: String)
    ensures
        r@ == dec_rep(n as int),
    decreases n,
{
    if n < 10 {
        String::from_str(digit_str(n))
    } else {
        let mut s = to_decimal(n / 10);
        s.append(digit_str(n % 10));
        proof {
            assert(s@ =~= dec_rep(n as int));
        }
        s
    }
}

/// Renders `n` in decimal, zero-padded to at least two digits.
fn two_digits(n: u64) -> (r: String)
    ensures
        r@ == dec_rep2(n as int),
{
    if n < 10 {
        let mut s = String::from_str("0");
        s.append(digit_str(n));
        proof {
            reveal_strlit("0");
            assert(s@ =~= dec_rep2(n as int));
        }
        s
    } else {
        to_decimal(n)
    }
}

/// Renders a duration of `total_seconds` whole seconds as a
/// colon-separated clock string, `hours:minutes:seconds`.
pub fn dur_to_hms(total_seconds: u64) -> (r: String)
    ensures
        r@ == spec_hms(total_seconds as int),
{
    let seconds: u64 = total_seconds % 60;
    let minutes: u64 = (total_seconds / 60) % 60;
    let hours: u64 = (total_seconds / 60) / 60;
    let mut s = two_digits(hours);
    s.append(":");
    let m = two_digits(minutes);
    s.append(m.as_str());
    s.append(":");
    let sec = two_digits(seconds);
    s.append(sec.as_str());
    proof {
        assert(s@ =~= spec_hms(total_seconds as int));
    }
    s
}

} // verus!
