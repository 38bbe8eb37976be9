//! Human-readable durations.
use vstd::prelude::*;

use crate::time::{max_span, trunc_div, Duration};

verus! {

/// The decimal digit `d` as a character.
pub open spec fn digit_char(d: int) -> char {
    if d == 0 {
        '0'
    } else if d == 1 {
        '1'
    } else if d == 2 {
        '2'
    } else if d == 3 {
        '3'
    } else if d == 4 {
        '4'
    } else if d == 5 {
        '5'
    } else if d == 6 {
        '6'
    } else if d == 7 {
        '7'
    } else if d == 8 {
        '8'
    } else {
        '9'
    }
}

/// The decimal digits of `n`, most significant first, without leading zeros.
pub open spec fn digits(n: nat) -> Seq<char>
    decreases n,
{
    if n < 10 {
        seq![digit_char(n as int)]
    } else {
        digits(n / 10) + seq![digit_char((n % 10) as int)]
    }
}

/// `n` written in decimal, with a leading `-` when negative.
pub open spec fn decimal_text(n: int) -> Seq<char> {
    if n < 0 {
        seq!['-'] + digits((-n) as nat)
    } else {
        digits(n as nat)
    }
}

/// Relies on the `Display` impl of `i64` (through `ToString`), which writes
/// the number in decimal with a leading `-` when negative.
#[verifier::external_body]
fn decimal(n: i64) -> (r: String)
    ensures
        r@ == decimal_text(n as int),
{
    n.to_string()
}

/// `numerator / denominator`, with half the denominator added first.
pub open spec fn rounded(numerator: int, denominator: int) -> int {
    trunc_div(numerator + trunc_div(denominator, 2), denominator)
}

/// Divides two integers, adding half the denominator to the numerator first,
/// so that for positive operands the quotient is rounded to nearest.
pub fn rounded_div(numerator: i64, denominator: i64) -> (r: i64)
    requires
        denominator != 0,
        i64::MIN <= numerator + trunc_div(denominator as int, 2) <= i64::MAX,
        !(numerator + trunc_div(denominator as int, 2) == i64::MIN && denominator == -1),
    ensures
        r == rounded(numerator as int, denominator as int),
{
    let half = match denominator.checked_div(2) {
        Some(h) => h,
        None => 0,
    };
    assert(half == trunc_div(denominator as int, 2));
    let sum = numerator + half;
    proof {
        let x = sum as int;
        let d = denominator as int;
        if x > 0 && d < 0 {
            assert(x / (d * -1) <= x) by (nonlinear_arith)
                requires x > 0, d < 0;
        } else if x < 0 && d > 0 {
            assert((x * -1) / d <= -x) by (nonlinear_arith)
                requires x < 0, d > 0;
        } else if x < 0 && d < -1 {
            assert((x * -1) / (d * -1) <= -x / 2) by (nonlinear_arith)
                requires x < 0, d < -1;
        } else if x > 0 && d > 0 {
            assert(x / d <= x) by (nonlinear_arith)
                requires x > 0, d > 0;
        }
    }
    match sum.checked_div(denominator) {
        Some(q) => q,
        None => 0,
    }
}

/// The text that `human_duration` gives for a duration of `milli`
/// milliseconds: the two largest units, the smaller one rounded.
pub open spec fn human_duration_text(milli: int) -> Seq<char> {
    if milli < 1000 {
        decimal_text(milli) + " milliseconds"@
    } else {
        let total_seconds = rounded(milli, 1000);
        if total_seconds < 60 {
            decimal_text(total_seconds) + " seconds"@
        } else {
            let total_minutes = total_seconds / 60;
            let seconds = total_seconds - total_minutes * 60;
            if total_minutes < 60 {
                decimal_text(total_minutes) + " minutes "@ + decimal_text(seconds) + " seconds"@
            } else {
                let total_hours = total_minutes / 60;
                let minutes = total_minutes - total_hours * 60 + rounded(seconds, 60);
                if total_hours < 24 {
                    decimal_text(total_hours) + " hours "@ + decimal_text(minutes) + " minutes"@
                } else {
                    let days = total_hours / 24;
                    let hours = total_hours - days * 24 + rounded(minutes, 60);
                    decimal_text(days) + " days "@ + decimal_text(hours) + " hours"@
                }
            }
        }
    }
}

/// Formats a duration as a human-readable string, such as
/// `"2 minutes 37 seconds"`.
pub fn human_duration(d: Duration) -> (r: String)
    requires
        -max_span() < d.nanos < max_span(),
    ensures
        r@ == human_duration_text(trunc_div(d.nanos as int, 1_000_000)),
{
    let milli = d.num_milliseconds();
    proof {
        assert(-max_span() / 1_000_000 - 1 <= milli <= max_span() / 1_000_000 + 1) by (nonlinear_arith)
            requires
                milli == trunc_div(d.nanos as int, 1_000_000),
                -max_span() < d.nanos < max_span(),
        ;
    }
    if milli < 1000 {
        let mut s = decimal(milli);
        s.append(" milliseconds");
        return s;
    }
    let total_seconds = rounded_div(milli, 1000);
    if total_seconds < 60 {
        let mut s = decimal(total_seconds);
        s.append(" seconds");
        return s;
    }
    let total_minutes = total_seconds / 60;
    let seconds = total_seconds - total_minutes * 60;
    if total_minutes < 60 {
        let mut s = decimal(total_minutes);
        s.append(" minutes ");
        s.append(decimal(seconds).as_str());
        s.append(" seconds");
        return s;
    }
    let total_hours = total_minutes / 60;
    let minutes = total_minutes - total_hours * 60 + rounded_div(seconds, 60);
    if total_hours < 24 {
        let mut s = decimal(total_hours);
        s.append(" hours ");
        s.append(decimal(minutes).as_str());
        s.append(" minutes");
        return s;
    }
    let days = total_hours / 24;
    let hours = total_hours - days * 24 + rounded_div(minutes, 60);
    let mut s = decimal(days);
    s.append(" days ");
    s.append(decimal(hours).as_str());
    s.append(" hours");
    s
}

} // verus!
