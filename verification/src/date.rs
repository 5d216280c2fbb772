//! The date stamp used to name journal files: `year-month-day` with the
//! month and day zero-padded to two digits. Reading the clock is the one
//! trusted step; turning the calendar numbers into the stamp is verified.

use vstd::prelude::*;
use crate::decimal::{append_u64, dec_str, digit_char, digit_str};

verus! {

/// A number rendered as exactly two decimal digits, zero-padded.
pub open spec fn two_digit_str(n: int) -> Seq<char>
    recommends
        0 <= n <= 99,
{
    seq![digit_char(n / 10), digit_char(n % 10)]
}

/// The date stamp `year-month-day`: the year without padding (with a
/// leading minus sign when negative), month and day as two digits each.
pub open spec fn date_str(year: int, month: int, day: int) -> Seq<char> {
    year_str(year) + seq!['-'] + two_digit_str(month) + seq!['-'] + two_digit_str(day)
}

/// The year as decimal digits, preceded by `'-'` when negative.
pub open spec fn year_str(year: int) -> Seq<char> {
    if year < 0 {
        seq!['-'] + dec_str(-year)
    } else {
        dec_str(year)
    }
}

/// Appends `n` as exactly two decimal digits.
fn append_two_digits(s: &mut String, n: u8)
    requires
        n <= 99,
    ensures
        final(s)@ == old(s)@ + two_digit_str(n as int),
{
    let hi = digit_str(n / 10);
    s.append(hi);
    let lo = digit_str(n % 10);
    s.append(lo);
    proof {
        assert(s@ =~= old(s)@ + two_digit_str(n as int));
    }
}

/// Renders the date stamp for the given calendar numbers.
pub fn format_date(year: i32, month: u8, day: u8) -> (r: String)
    requires
        -9999 <= year <= 9999,
        month <= 99,
        day <= 99,
    ensures
        r@ == date_str(year as int, month as int, day as int),
{
    proof {
        reveal_strlit("-");
    }
    let mut s = String::new();
    if year < 0 {
        s.append("-");
        append_u64(&mut s, (-year) as u64);
    } else {
        append_u64(&mut s, year as u64);
    }
    s.append("-");
    append_two_digits(&mut s, month);
    s.append("-");
    append_two_digits(&mut s, day);
    proof {
        assert("-"@ =~= seq!['-']);
        assert(s@ =~= date_str(year as int, month as int, day as int));
    }
    s
}

/// Relies on time::UtcDateTime::now and its year, month and day
/// accessors: the calendar date of the current moment in UTC. The day is
/// documented to lie in 1..=31, the month has twelve variants, and the
/// supported year range of time::Date is -9999..=9999.
#[verifier::external_body]
fn utc_today() -> (r: (i32, u8, u8))
    ensures
        -9999 <= r.0 <= 9999,
        1 <= r.1 <= 12,
        1 <= r.2 <= 31,
{
    let now = time::UtcDateTime::now();
    (now.year(), now.month() as u8, now.day())
}

/// Today's date stamp in UTC, in the shape every journal file name uses.
/// Whatever moment the clock reports, the result is the date stamp of
/// some calendar date in the supported range.
pub fn today_date_string() -> (r: String)
    ensures
        exists|y: int, m: int, d: int|
            {
                &&& -9999 <= y <= 9999
                &&& 1 <= m <= 12
                &&& 1 <= d <= 31
                &&& r@ == #[trigger] date_str(y, m, d)
            },
{
    let (y, m, d) = utc_today();
    let r = format_date(y, m, d);
    proof {
        assert(r@ == date_str(y as int, m as int, d as int));
    }
    r
}

} // verus!
