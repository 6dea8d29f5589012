//! Decimal and calendar text used in reports and status lines.

use vstd::prelude::*;
use vstd::string::StringExecFns;

verus! {

// ── Decimal digits ────────────────────────────────────────────────────────────

/// The character of a decimal digit.
pub open spec fn digit_char(d: nat) -> char {
    (48 + d) as char
}

/// The decimal representation of a natural number, without leading zeros.
pub open spec fn dec(v: nat) -> Seq<char>
    decreases v,
{
    if v < 10 {
        seq![digit_char(v)]
    } else {
        dec(v / 10).push(digit_char(v % 10))
    }
}

/// `n` zero characters.
pub open spec fn zeros(n: nat) -> Seq<char> {
    Seq::new(n, |i: int| '0')
}

/// The decimal representation left-padded with zeros to at least `w` characters.
pub open spec fn padded(v: nat, w: nat) -> Seq<char> {
    if dec(v).len() < w {
        zeros((w - dec(v).len()) as nat) + dec(v)
    } else {
        dec(v)
    }
}

/// A decimal number has at least one digit, and a `u64` at most twenty.
proof fn lemma_dec_len(v: nat)
    ensures
        1 <= dec(v).len(),
        v < 0x1_0000_0000_0000_0000 ==> dec(v).len() <= 20,
{
    assert(pow10(20) == 100_000_000_000_000_000_000) by {
        reveal_with_fuel(pow10, 21);
    }
    lemma_dec_below(v, 20);
}

/// A number below 10^k has at least one and at most k digits (for k >= 1).
proof fn lemma_dec_below(v: nat, k: nat)
    requires
        k >= 1,
    ensures
        1 <= dec(v).len(),
        v < pow10(k) ==> dec(v).len() <= k,
    decreases k,
{
    assert(pow10(1) == 10) by {
        reveal_with_fuel(pow10, 2);
    }
    if v >= 10 {
        if k > 1 {
            let p = pow10((k - 1) as nat);
            if v < pow10(k) {
                assert(v / 10 < p) by (nonlinear_arith)
                    requires
                        v < 10 * p,
                ;
            }
            lemma_dec_below(v / 10, (k - 1) as nat);
        }
    }
}

/// A number below 10^w takes exactly `w` characters once padded to `w`.
pub proof fn lemma_padded_len(v: nat, w: nat)
    requires
        w >= 1,
        v < pow10(w),
    ensures
        padded(v, w).len() == w,
{
    lemma_dec_below(v, w);
}

/// Ten to the power `k`.
pub open spec fn pow10(k: nat) -> nat
    decreases k,
{
    if k == 0 {
        1
    } else {
        10 * pow10((k - 1) as nat)
    }
}

/// The one-character string of a decimal digit.
fn digit_str(d: u64) -> (s: &'static str)
    requires
        d < 10,
    ensures
        s@ == seq![digit_char(d as nat)],
{
    proof {
        reveal_strlit("0");
        reveal_strlit("1");
        reveal_strlit("2");
        reveal_strlit("3");
        reveal_strlit("4");
        reveal_strlit("5");
        reveal_strlit("6");
        reveal_strlit("7");
        reveal_strlit("8");
        reveal_strlit("9");
    }
    match d {
        0 => "0",
        1 => "1",
        2 => "2",
        3 => "3",
        4 => "4",
        5 => "5",
        6 => "6",
        7 => "7",
        8 => "8",
        _ => "9",
    }
}

/// Append the decimal digits of `v`.
fn push_dec(out: &mut String, v: u64)
    ensures
        final(out)@ == old(out)@ + dec(v as nat),
    decreases v,
{
    if v >= 10 {
        push_dec(out, v / 10);
    }
    out.append(digit_str(v % 10));
    proof {
        if v >= 10 {
            assert(dec(v as nat) == dec((v / 10) as nat).push(digit_char((v % 10) as nat)));
        }
    }
}

/// The number of decimal digits of `v`.
pub(crate) fn dec_len(v: u64) -> (n: usize)
    ensures
        n == dec(v as nat).len(),
    decreases v,
{
    proof {
        lemma_dec_len(v as nat);
    }
    if v >= 10 {
        dec_len(v / 10) + 1
    } else {
        1
    }
}

/// Append the decimal digits of `v`.
pub fn push_decimal(out: &mut String, v: u64)
    ensures
        final(out)@ == old(out)@ + dec(v as nat),
{
    push_dec(out, v);
}

/// The decimal representation of an integer, with a leading `-` when negative.
pub open spec fn int_text(v: int) -> Seq<char> {
    if v < 0 {
        seq!['-'] + dec((-v) as nat)
    } else {
        dec(v as nat)
    }
}

/// Append a signed integer in decimal.
pub fn push_int(out: &mut String, v: i64)
    requires
        v > i64::MIN,
    ensures
        final(out)@ == old(out)@ + int_text(v as int),
{
    if v < 0 {
        proof {
            reveal_strlit("-");
        }
        let ghost start = out@;
        out.append("-");
        push_dec(out, (-v) as u64);
        assert(out@ =~= start + int_text(v as int));
    } else {
        push_dec(out, v as u64);
    }
}

/// Append `v` in decimal, left-padded with zeros to at least `width` characters.
pub fn push_padded(out: &mut String, v: u64, width: usize)
    ensures
        final(out)@ == old(out)@ + padded(v as nat, width as nat),
{
    let n = dec_len(v);
    let ghost start = out@;
    if n < width {
        let mut k: usize = 0;
        while k < width - n
            invariant
                n < width,
                k <= width - n,
                out@ == start + zeros(k as nat),
            decreases width - n - k,
        {
            proof {
                reveal_strlit("0");
            }
            out.append("0");
            k = k + 1;
            assert(out@ =~= start + zeros(k as nat));
        }
    }
    push_dec(out, v);
    assert(out@ =~= start + padded(v as nat, width as nat));
}

// ── Calendar ──────────────────────────────────────────────────────────────────

/// Gregorian leap year rule.
pub open spec fn leap(year: int) -> bool {
    (year % 4 == 0 && year % 100 != 0) || year % 400 == 0
}

/// Whether `year` is a Gregorian leap year.
pub fn is_leap(year: u64) -> (b: bool)
    ensures
        b == leap(year as int),
{
    (year % 4 == 0 && year % 100 != 0) || year % 400 == 0
}

/// Days in a year.
pub open spec fn year_len(year: int) -> nat {
    if leap(year) {
        366
    } else {
        365
    }
}

/// Days in month `m` (1 = January) of `year`.
pub open spec fn month_len(year: int, m: int) -> nat {
    if m == 2 {
        if leap(year) {
            29
        } else {
            28
        }
    } else if m == 4 || m == 6 || m == 9 || m == 11 {
        30
    } else {
        31
    }
}

/// Walking forward from `year` by `days` whole days: the year reached and
/// the day of that year (0-based).
pub open spec fn year_of(days: nat, year: nat) -> (nat, nat)
    decreases days,
{
    if days < year_len(year as int) {
        (year, days)
    } else {
        year_of((days - year_len(year as int)) as nat, year + 1)
    }
}

/// Walking forward from month `m` of `year` by `rem` days: the month reached
/// and the day of that month (0-based).  December absorbs any remainder.
pub open spec fn month_of(rem: nat, year: nat, m: nat) -> (nat, nat)
    decreases 12 - m,
{
    if m >= 12 || rem < month_len(year as int, m as int) {
        (m, rem)
    } else {
        month_of((rem - month_len(year as int, m as int)) as nat, year, m + 1)
    }
}

/// The UTC calendar date of a Unix day number: (year, month 1–12, day 1–31).
pub open spec fn civil_date(days: nat) -> (nat, nat, nat) {
    let (y, rem) = year_of(days, 1970);
    let (m, d) = month_of(rem, y, 1);
    (y, m, d + 1)
}

/// The month walk ends on a valid month with a day inside it.
proof fn lemma_month_of_bounds(rem: nat, year: nat, m: nat)
    requires
        1 <= m <= 12,
        rem < year_len(year as int) - days_before(year as int, m as int),
    ensures
        1 <= month_of(rem, year, m).0 <= 12,
        month_of(rem, year, m).1 < month_len(year as int, month_of(rem, year, m).0 as int),
    decreases 12 - m,
{
    if m < 12 && rem >= month_len(year as int, m as int) {
        lemma_month_of_bounds((rem - month_len(year as int, m as int)) as nat, year, m + 1);
    } else if m == 12 {
        assert(days_before(year as int, 12) + 31 == year_len(year as int)) by {
            reveal_with_fuel(days_before, 12);
        }
    }
}

/// Days of `year` before the first of month `m`.
pub open spec fn days_before(year: int, m: int) -> int
    decreases m,
{
    if m <= 1 {
        0
    } else {
        days_before(year, m - 1) + month_len(year, m - 1)
    }
}

/// The year walk ends inside a year.
proof fn lemma_year_of_bounds(days: nat, year: nat)
    ensures
        year_of(days, year).1 < year_len(year_of(days, year).0 as int),
        year <= year_of(days, year).0 <= year + days,
    decreases days,
{
    if days >= year_len(year as int) {
        lemma_year_of_bounds((days - year_len(year as int)) as nat, year + 1);
    }
}

/// Every Unix day number falls on a valid date: month 1–12, day inside the month.
pub proof fn lemma_civil_date_bounds(days: nat)
    ensures
        1 <= civil_date(days).1 <= 12,
        1 <= civil_date(days).2 <= month_len(civil_date(days).0 as int, civil_date(days).1 as int),
        month_len(civil_date(days).0 as int, civil_date(days).1 as int) <= 31,
{
    lemma_year_of_bounds(days, 1970);
    let (y, rem) = year_of(days, 1970);
    assert(days_before(y as int, 1) == 0);
    lemma_month_of_bounds(rem, y, 1);
}

/// The date of a Unix day number; the month is 1–12 and the day lies inside
/// that month.
pub fn civil_from_days(days: u64) -> (r: (u64, u64, u64))
    ensures
        (r.0 as nat, r.1 as nat, r.2 as nat) == civil_date(days as nat),
        1 <= r.1 <= 12,
        1 <= r.2 <= month_len(r.0 as int, r.1 as int),
{
    let mut year: u64 = 1970;
    let mut remaining: u64 = days;
    proof {
        lemma_year_of_bounds(days as nat, 1970);
    }
    loop
        invariant
            year_of(remaining as nat, year as nat) == year_of(days as nat, 1970),
            (year - 1970) * 365 <= days - remaining,
            remaining <= days,
            1970 <= year,
        ensures
            year_of(remaining as nat, year as nat) == year_of(days as nat, 1970),
            remaining < year_len(year as int),
        decreases remaining,
    {
        let days_in_year: u64 = if is_leap(year) { 366 } else { 365 };
        if remaining < days_in_year {
            break;
        }
        remaining = remaining - days_in_year;
        year = year + 1;
    }
    let leap_year = is_leap(year);
    let mut month: u64 = 1;
    let ghost rem0 = remaining;
    proof {
        assert(days_before(year as int, 1) == 0);
    }
    while month < 12
        invariant
            1 <= month <= 12,
            leap_year == leap(year as int),
            month_of(remaining as nat, year as nat, month as nat) == month_of(rem0 as nat, year as nat, 1),
            remaining < year_len(year as int) - days_before(year as int, month as int),
        ensures
            1 <= month <= 12,
            month_of(remaining as nat, year as nat, month as nat) == month_of(rem0 as nat, year as nat, 1),
            remaining < year_len(year as int) - days_before(year as int, month as int),
            month == 12 || remaining < month_len(year as int, month as int),
        decreases 12 - month,
    {
        let md: u64 = if month == 2 {
            if leap_year { 29 } else { 28 }
        } else if month == 4 || month == 6 || month == 9 || month == 11 {
            30
        } else {
            31
        };
        if remaining < md {
            break;
        }
        remaining = remaining - md;
        month = month + 1;
    }
    proof {
        lemma_month_of_bounds(remaining as nat, year as nat, month as nat);
    }
    (year, month, remaining + 1)
}

} // verus!
