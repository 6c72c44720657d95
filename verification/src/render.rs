//! Decimal rendering of elapsed durations for the log templates.
//!
//! The debug template shows milliseconds with one fractional digit, the
//! info/warn template shows seconds with two fractional digits. Both round
//! the dropped remainder to the nearest digit, half away from zero.

use vstd::prelude::*;
use vstd::string::StringExecFns;

verus! {

/// The decimal digit character for a value below ten.
pub open spec fn digit_char(d: nat) -> char {
    if d == 0 {
        '0'
    } else if d == 1 {
        '1'
    } else if d == 2 {
        '2'
    } else if d == 3 {
        '3'
    } else if d == 4 {
        '4'
    } else if d == 5 {
        '5'
    } else if d == 6 {
        '6'
    } else if d == 7 {
        '7'
    } else if d == 8 {
        '8'
    } else {
        '9'
    }
}

/// The decimal digit string of `n`, most significant digit first, with no
/// leading zeros (zero itself is the single digit `0`).
pub open spec fn decimal_digits(n: nat) -> Seq<char>
    decreases n,
{
    if n < 10 {
        seq![digit_char(n)]
    } else {
        decimal_digits(n / 10).push(digit_char(n % 10))
    }
}

/// The rendered milliseconds of a sub-second remainder of `nanos`
/// nanoseconds, with one fractional digit: the tenths of a millisecond are
/// rounded to nearest, then printed as `<whole>.<tenth>`.
pub open spec fn millis_rendering(nanos: nat) -> Seq<char> {
    let tenths = (nanos + 50_000) / 100_000;
    decimal_digits(tenths / 10) + seq!['.'] + seq![digit_char(tenths % 10)]
}

/// The rendered seconds of a duration of `secs` seconds and `nanos`
/// remaining nanoseconds, with two fractional digits: the hundredths of a
/// second are rounded to nearest, carrying into the whole seconds when the
/// remainder rounds up to a full second.
pub open spec fn seconds_rendering(secs: nat, nanos: nat) -> Seq<char> {
    let hundredths = (nanos + 5_000_000) / 10_000_000;
    let whole: nat = if hundredths >= 100 {
        secs + 1
    } else {
        secs
    };
    let frac: nat = if hundredths >= 100 {
        0
    } else {
        hundredths
    };
    decimal_digits(whole) + seq!['.'] + seq![digit_char(frac / 10), digit_char(frac % 10)]
}

/// The one-character string for a decimal digit.
fn digit_str(d: u64) -> (s: &'static str)
    requires
        d < 10,
    ensures
        s@ == seq![digit_char(d as nat)],
{
    let s: &'static str = if d == 0 {
        "0"
    } else if d == 1 {
        "1"
    } else if d == 2 {
        "2"
    } else if d == 3 {
        "3"
    } else if d == 4 {
        "4"
    } else if d == 5 {
        "5"
    } else if d == 6 {
        "6"
    } else if d == 7 {
        "7"
    } else if d == 8 {
        "8"
    } else {
        "9"
    };
    proof {
        reveal_strlit("0");
        reveal_strlit("1");
        reveal_strlit("2");
        reveal_strlit("3");
        reveal_strlit("4");
        reveal_strlit("5");
        reveal_strlit("6");
        reveal_strlit("7");
        reveal_strlit("8");
        reveal_strlit("9");
        assert(s@ =~= seq![digit_char(d as nat)]);
    }
    s
}

/// The decimal digit string of `n`.
pub fn u64_to_string(n: u64) -> (s: String)
    ensures
        s@ == decimal_digits(n as nat),
    decreases n,
{
    if n < 10 {
        let s = digit_str(n).to_owned();
        s
    } else {
        let mut s = u64_to_string(n / 10);
        s.append(digit_str(n % 10));
        proof {
            assert(s@ =~= decimal_digits(n as nat));
        }
        s
    }
}

/// Render a sub-second remainder as milliseconds with one fractional digit.
pub fn format_millis_tenths(nanos: u32) -> (s: String)
    requires
        nanos < crate::timing::NANOS_PER_SEC,
    ensures
        s@ == millis_rendering(nanos as nat),
{
    let tenths: u32 = (nanos + 50_000) / 100_000;
    let mut s = u64_to_string((tenths / 10) as u64);
    s.append(".");
    s.append(digit_str((tenths % 10) as u64));
    proof {
        reveal_strlit(".");
        assert(s@ =~= millis_rendering(nanos as nat));
    }
    s
}

/// Render a duration as seconds with two fractional digits.
pub fn format_secs_hundredths(d: &crate::timing::DurationSample) -> (s: String)
    requires
        d.wf(),
        d.secs < u64::MAX,
    ensures
        s@ == seconds_rendering(d.secs as nat, d.nanos as nat),
{
    let hundredths: u32 = (d.nanos + 5_000_000) / 10_000_000;
    let whole: u64 = if hundredths >= 100 {
        d.secs + 1
    } else {
        d.secs
    };
    let frac: u32 = if hundredths >= 100 {
        0
    } else {
        hundredths
    };
    let mut s = u64_to_string(whole);
    s.append(".");
    s.append(digit_str((frac / 10) as u64));
    s.append(digit_str((frac % 10) as u64));
    proof {
        reveal_strlit(".");
        assert(s@ =~= seconds_rendering(d.secs as nat, d.nanos as nat));
    }
    s
}

} // verus!
