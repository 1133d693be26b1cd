//! Verified rendering of millisecond durations as text: plain decimal
//! numbers, seconds with two decimal places, and `minutes:seconds`.

use vstd::prelude::*;
use vstd::string::StringExecFns;

verus! {

/// The character for one decimal digit.
pub open spec fn digit_char(d: int) -> char {
    if d == 0 {
        '0'
    } else if d == 1 {
        '1'
    } else if d == 2 {
        '2'
    } else if d == 3 {
        '3'
    } else if d == 4 {
        '4'
    } else if d == 5 {
        '5'
    } else if d == 6 {
        '6'
    } else if d == 7 {
        '7'
    } else if d == 8 {
        '8'
    } else {
        '9'
    }
}

/// Decimal digits of `n`, most significant first, without leading
/// zeros (zero itself is the single digit `0`).
pub open spec fn dec_of(n: int) -> Seq<char>
    recommends
        n >= 0,
    decreases n,
{
    if n < 10 {
        seq![digit_char(n)]
    } else {
        dec_of(n / 10).push(digit_char(n % 10))
    }
}

/// Exactly two decimal digits, leading zero kept; for values below 100.
pub open spec fn dec2_of(n: int) -> Seq<char> {
    seq![digit_char(n / 10), digit_char(n % 10)]
}

/// A millisecond count as seconds with two decimal places, truncated:
/// `S.CC`.
pub open spec fn secs_str(ms: int) -> Seq<char> {
    dec_of(ms / 1000) + "."@ + dec2_of((ms % 1000) / 10)
}

/// A millisecond count as `minutes:seconds`, the seconds with two
/// decimal places: `M:S.CC`.
pub open spec fn min_sec_str(ms: int) -> Seq<char> {
    dec_of(ms / 60000) + ":"@ + secs_str(ms % 60000)
}

/// The one-character string for a decimal digit.
fn digit_str(d: u64) -> (r: &'static str)
    requires
        d < 10,
    ensures
        r@ == seq![digit_char(d as int)],
{
    proof {
        reveal_strlit("0");
        reveal_strlit("1");
        reveal_strlit("2");
        reveal_strlit("3");
        reveal_strlit("4");
        reveal_strlit("5");
        reveal_strlit("6");
        reveal_strlit("7");
        reveal_strlit("8");
        reveal_strlit("9");
    }
    if d == 0 {
        "0"
    } else if d == 1 {
        "1"
    } else if d == 2 {
        "2"
    } else if d == 3 {
        "3"
    } else if d == 4 {
        "4"
    } else if d == 5 {
        "5"
    } else if d == 6 {
        "6"
    } else if d == 7 {
        "7"
    } else if d == 8 {
        "8"
    } else {
        "9"
    }
}

/// Render `n` in decimal.
pub fn u64_to_string(n: u64) -> (s: String)
    ensures
        s@ == dec_of(n as int),
    decreases n,
{
    if n < 10 {
        digit_str(n).to_owned()
    } else {
        let front = u64_to_string(n / 10);
        let s = front.concat(digit_str(n % 10));
        proof {
            assert(s@ =~= dec_of(n as int));
        }
        s
    }
}

/// Render `n` in decimal.
pub fn u128_to_string(n: u128) -> (s: String)
    ensures
        s@ == dec_of(n as int),
    decreases n,
{
    if n < 10 {
        digit_str(n as u64).to_owned()
    } else {
        let front = u128_to_string(n / 10);
        let s = front.concat(digit_str((n % 10) as u64));
        proof {
            assert(s@ =~= dec_of(n as int));
        }
        s
    }
}

/// Render `n` as exactly two decimal digits.
pub fn two_digit_string(n: u64) -> (s: String)
    requires
        n < 100,
    ensures
        s@ == dec2_of(n as int),
{
    let s = digit_str(n / 10).to_owned().concat(digit_str(n % 10));
    proof {
        assert(s@ =~= dec2_of(n as int));
    }
    s
}

/// Render a millisecond count as seconds with two decimal places.
pub fn secs_to_string(ms: u64) -> (s: String)
    ensures
        s@ == secs_str(ms as int),
{
    let whole = u64_to_string(ms / 1000);
    let frac = two_digit_string((ms % 1000) / 10);
    let s = whole.concat(".").concat(frac.as_str());
    proof {
        assert(s@ =~= secs_str(ms as int));
    }
    s
}

/// Render a millisecond count as `minutes:seconds` with two decimal
/// places on the seconds.
pub fn time_to_string(ms: u128) -> (s: String)
    ensures
        s@ == min_sec_str(ms as int),
{
    let mins = u128_to_string(ms / 60000);
    let rest = secs_to_string((ms % 60000) as u64);
    let s = mins.concat(":").concat(rest.as_str());
    proof {
        assert(s@ =~= min_sec_str(ms as int));
    }
    s
}

} // verus!
