//! UTC timestamps in RFC 3339 form (`YYYY-MM-DDTHH:MM:SSZ`) computed from
//! seconds since the Unix epoch, with the proleptic Gregorian calendar.
use vstd::prelude::*;

use crate::text::{append_chars, decimal, decimal_chars, digit_char, string_of};

verus! {

pub open spec fn is_leap_year(y: int) -> bool {
    (y % 4 == 0 && y % 100 != 0) || y % 400 == 0
}

pub open spec fn year_length(y: int) -> nat {
    if is_leap_year(y) {
        366
    } else {
        365
    }
}

/// Days of month `m` (0 = January) of year `y`.
pub open spec fn month_length(y: int, m: int) -> nat {
    if m == 1 {
        if is_leap_year(y) {
            29
        } else {
            28
        }
    } else if m == 3 || m == 5 || m == 8 || m == 10 {
        30
    } else {
        31
    }
}

/// Days from 1970-01-01 to the first day of year `y` (`y >= 1970`).
pub open spec fn days_before_year(y: int) -> nat
    decreases y - 1970,
{
    if y <= 1970 {
        0
    } else {
        days_before_year(y - 1) + year_length(y - 1)
    }
}

/// Days from the first day of year `y` to the first day of month `m`.
pub open spec fn days_before_month(y: int, m: int) -> nat
    decreases m,
{
    if m <= 0 {
        0
    } else {
        days_before_month(y, m - 1) + month_length(y, m - 1)
    }
}

/// Days of year `y` from the first day of month `m` to the year's end.
pub open spec fn days_from_month(y: int, m: int) -> nat
    decreases 12 - m,
{
    if m >= 12 {
        0
    } else {
        month_length(y, m) + days_from_month(y, m + 1)
    }
}

/// The year that day `days` (counted from the first day of year `y`) falls
/// in, and the day's index within it.
pub open spec fn year_and_day(days: nat, y: int) -> (int, nat)
    decreases days,
{
    if days < year_length(y) {
        (y, days)
    } else {
        year_and_day((days - year_length(y)) as nat, y + 1)
    }
}

/// The month (0 = January) that day `d` of year `y`, counted from the first
/// day of month `m`, falls in, and the day's index within the month.
pub open spec fn month_and_day(d: nat, y: int, m: int) -> (int, nat)
    decreases 12 - m,
{
    if m >= 11 || d < month_length(y, m) {
        (m, d)
    } else {
        month_and_day((d - month_length(y, m)) as nat, y, m + 1)
    }
}

/// The calendar date and time of `secs` seconds after the Unix epoch:
/// (year, month 1..12, day 1..31, hour, minute, second).
pub open spec fn civil_time(secs: nat) -> (int, nat, nat, nat, nat, nat) {
    let (y, yd) = year_and_day(secs / 86400, 1970);
    let (m, d) = month_and_day(yd, y, 0);
    (y, (m + 1) as nat, d + 1, (secs % 86400) / 3600, (secs % 3600) / 60, secs % 60)
}

/// Two-digit decimal notation with a leading zero (`{:02}`).
pub open spec fn pad2(n: nat) -> Seq<char> {
    if n < 10 {
        seq!['0', digit_char(n)]
    } else {
        decimal(n)
    }
}

/// `YYYY-MM-DDTHH:MM:SSZ` for `secs` seconds after the Unix epoch.
pub open spec fn spec_utc_timestamp(secs: nat) -> Seq<char> {
    let (y, mo, d, h, mi, s) = civil_time(secs);
    decimal(y as nat) + seq!['-'] + pad2(mo) + seq!['-'] + pad2(d) + seq!['T'] + pad2(h) + seq![':']
        + pad2(mi) + seq![':'] + pad2(s) + seq!['Z']
}

proof fn lemma_days_from_month_year(y: int)
    ensures
        days_from_month(y, 0) == year_length(y),
{
    reveal_with_fuel(days_from_month, 13);
}

proof fn lemma_year_and_day(days: nat, y: int)
    requires
        y >= 1970,
    ensures
        year_and_day(days, y).0 >= y,
        year_and_day(days, y).1 < year_length(year_and_day(days, y).0),
        days_before_year(year_and_day(days, y).0) + year_and_day(days, y).1 == days_before_year(y)
            + days,
    decreases days,
{
    if days >= year_length(y) {
        lemma_year_and_day((days - year_length(y)) as nat, y + 1);
    }
}

proof fn lemma_month_and_day(d: nat, y: int, m: int)
    requires
        0 <= m < 12,
        d < days_from_month(y, m),
    ensures
        m <= month_and_day(d, y, m).0 < 12,
        month_and_day(d, y, m).1 < month_length(y, month_and_day(d, y, m).0),
        days_before_month(y, month_and_day(d, y, m).0) + month_and_day(d, y, m).1
            == days_before_month(y, m) + d,
    decreases 12 - m,
{
    if m >= 11 {
        assert(days_from_month(y, 12) == 0);
    } else if d >= month_length(y, m) {
        lemma_month_and_day((d - month_length(y, m)) as nat, y, m + 1);
    }
}

/// The date that `utc_timestamp` writes names the right day: its year, month
/// and day lie in range, and counting the days of the years and months before
/// it plus the day of the month gives back the number of whole days since the
/// epoch. The time of day is the remainder in hours, minutes and seconds.
pub proof fn lemma_civil_time_roundtrip(secs: nat)
    ensures
        ({
            let (y, mo, d, h, mi, s) = civil_time(secs);
            &&& y >= 1970
            &&& 1 <= mo <= 12
            &&& 1 <= d <= month_length(y, mo - 1)
            &&& h < 24 && mi < 60 && s < 60
            &&& days_before_year(y) + days_before_month(y, mo - 1) + d - 1 == secs / 86400
            &&& h * 3600 + mi * 60 + s == secs % 86400
        }),
{
    let days = secs / 86400;
    lemma_year_and_day(days, 1970);
    let (y, yd) = year_and_day(days, 1970);
    lemma_days_from_month_year(y);
    lemma_month_and_day(yd, y, 0);
    assert((secs % 86400) / 3600 < 24);
    assert((secs % 3600) / 60 < 60);
    assert(secs % 3600 == (secs % 86400) % 3600) by (nonlinear_arith);
    assert((secs % 86400) == ((secs % 86400) / 3600) * 3600 + (secs % 86400) % 3600) by (nonlinear_arith);
    assert((secs % 3600) == ((secs % 3600) / 60) * 60 + secs % 60) by (nonlinear_arith);
    assert(secs % 60 == (secs % 3600) % 60) by (nonlinear_arith);
}

/// The Gregorian month lengths, by the knuckle rule: counting months from
/// January as 1, February has 29 days in a leap year and 28 otherwise; every
/// other month has 31 days when it is an odd month up to July or an even month
/// from August on, and 30 days else.
pub proof fn lemma_month_lengths(y: int, m: int)
    requires
        0 <= m < 12,
    ensures
        ({
            let n = m + 1;
            month_length(y, m) == if n == 2 {
                if is_leap_year(y) {
                    29nat
                } else {
                    28nat
                }
            } else if (n <= 7 && n % 2 == 1) || (n >= 8 && n % 2 == 0) {
                31nat
            } else {
                30nat
            }
        }),
{
}

/// A year has 365 days, or 366 in a leap year, and its months add up to it.
pub proof fn lemma_months_fill_the_year(y: int)
    ensures
        days_before_month(y, 12) == year_length(y),
        year_length(y) == if is_leap_year(y) { 366nat } else { 365nat },
{
    reveal_with_fuel(days_before_month, 13);
}

fn year_len(y: u64) -> (r: u64)
    ensures
        r == year_length(y as int),
{
    if (y % 4 == 0 && y % 100 != 0) || y % 400 == 0 {
        366
    } else {
        365
    }
}

fn month_len(y: u64, m: u64) -> (r: u64)
    requires
        m < 12,
    ensures
        r == month_length(y as int, m as int),
{
    if m == 1 {
        if (y % 4 == 0 && y % 100 != 0) || y % 400 == 0 {
            29
        } else {
            28
        }
    } else if m == 3 || m == 5 || m == 8 || m == 10 {
        30
    } else {
        31
    }
}

fn pad2_chars(n: u64) -> (r: Vec<char>)
    requires
        n < 100,
    ensures
        r@ == pad2(n as nat),
{
    if n < 10 {
        let mut r: Vec<char> = Vec::new();
        r.push('0');
        r.push(((n as u8) + 48) as char);
        assert(r@ =~= seq!['0', digit_char(n as nat)]);
        r
    } else {
        decimal_chars(n)
    }
}

/// The UTC time `secs` seconds after the Unix epoch as
/// `YYYY-MM-DDTHH:MM:SSZ`.
pub fn utc_timestamp(secs: u64) -> (r: String)
    ensures
        r@ == spec_utc_timestamp(secs as nat),
{
    let days = secs / 86400;
    let mut y: u64 = 1970;
    let mut rem: u64 = days;
    while rem >= year_len(y)
        invariant
            1970 <= y,
            y - 1970 <= days - rem,
            rem <= days,
            days == secs / 86400,
            year_and_day(days as nat, 1970) == year_and_day(rem as nat, y as int),
        decreases rem,
    {
        rem = rem - year_len(y);
        y = y + 1;
    }
    proof {
        lemma_year_and_day(days as nat, 1970);
        lemma_days_from_month_year(y as int);
    }
    let mut m: u64 = 0;
    let mut d: u64 = rem;
    while d >= month_len(y, m)
        invariant
            m < 12,
            d < days_from_month(y as int, m as int),
            month_and_day(rem as nat, y as int, 0) == month_and_day(d as nat, y as int, m as int),
        decreases 12 - m,
    {
        d = d - month_len(y, m);
        proof {
            if m == 11 {
                assert(days_from_month(y as int, 12) == 0);
            }
        }
        m = m + 1;
    }
    let day = d + 1;
    let month = m + 1;
    let hour = (secs % 86400) / 3600;
    let min = (secs % 3600) / 60;
    let sec = secs % 60;
    proof {
        assert(month_and_day(d as nat, y as int, m as int) == (m as int, d as nat));
    }
    let mut out = decimal_chars(y);
    out.push('-');
    append_chars(&mut out, &pad2_chars(month));
    out.push('-');
    proof {
        lemma_month_and_day(rem as nat, y as int, 0);
    }
    append_chars(&mut out, &pad2_chars(day));
    out.push('T');
    append_chars(&mut out, &pad2_chars(hour));
    out.push(':');
    append_chars(&mut out, &pad2_chars(min));
    out.push(':');
    append_chars(&mut out, &pad2_chars(sec));
    out.push('Z');
    proof {
        let (yy, mo, dd, h, mi, s) = civil_time(secs as nat);
        assert(yy == y && mo == month && dd == day && h == hour && mi == min && s == sec);
        assert(out@ =~= spec_utc_timestamp(secs as nat));
    }
    string_of(&out)
}

} // verus!
