//! A plain calendar date, with the arithmetic the exporter needs: validity,
//! a linear day number (for "days until expiry"), and the `YYYY-MM-DD`
//! rendering used in the metric labels.

use vstd::prelude::*;

use crate::text::{fmt_pad2, fmt_pad4, fmt_u64, push_char, spec_dec, spec_pad2, spec_pad4};

verus! {

/// The largest year a date may carry; matches the range of the calendar
/// library that hands dates to the exporter.
pub const MAX_YEAR: u32 = 262143;

/// Whether a year is a leap year in the proleptic Gregorian calendar.
pub open spec fn spec_is_leap_year(y: int) -> bool {
    (y % 4 == 0 && y % 100 != 0) || y % 400 == 0
}

/// The number of days in a month of a given year.
pub open spec fn spec_days_in_month(y: int, m: int) -> int {
    if m == 2 {
        if spec_is_leap_year(y) {
            29
        } else {
            28
        }
    } else if m == 4 || m == 6 || m == 9 || m == 11 {
        30
    } else {
        31
    }
}

/// Whether year, month and day name a real calendar date the exporter can
/// hold.
pub open spec fn spec_date_valid(y: int, m: int, d: int) -> bool {
    &&& 1 <= y <= MAX_YEAR
    &&& 1 <= m <= 12
    &&& 1 <= d <= spec_days_in_month(y, m)
}

/// The day number of a date: the count of days since the epoch date
/// 1970-01-01 of the proleptic Gregorian calendar (negative before it).
/// The difference of two day numbers is the number of calendar days
/// between the two dates.
pub open spec fn spec_day_number(y: int, m: int, d: int) -> int {
    let yy = if m <= 2 {
        y - 1
    } else {
        y
    };
    let era = yy / 400;
    let yoe = yy - era * 400;
    let mp = (m + 9) % 12;
    let doy = (153 * mp + 2) / 5 + d - 1;
    let doe = yoe * 365 + yoe / 4 - yoe / 100 + doy;
    era * 146097 + doe - 719468
}

/// The `YYYY-MM-DD` rendering of a year: four zero-padded digits up to 9999,
/// and a `+` followed by the plain digits beyond that.
pub open spec fn spec_year_text(y: nat) -> Seq<char> {
    if y <= 9999 {
        spec_pad4(y)
    } else {
        seq!['+'] + spec_dec(y)
    }
}

/// The full rendering of a date: year, month and day separated by dashes,
/// month and day zero-padded to two digits.
pub open spec fn spec_date_text(y: nat, m: nat, d: nat) -> Seq<char> {
    spec_year_text(y) + seq!['-'] + spec_pad2(m) + seq!['-'] + spec_pad2(d)
}

/// A calendar date.  Values can only be built through [`Date::new`], so every
/// value in existence names a real date.
#[derive(Clone, Copy, Debug, PartialEq)]
pub struct Date {
    year: u32,
    month: u32,
    day: u32,
}

impl Date {
    #[verifier::type_invariant]
    closed spec fn inv(&self) -> bool {
        spec_date_valid(self.year as int, self.month as int, self.day as int)
    }

    /// The year, at the specification level.
    pub closed spec fn spec_year(&self) -> int {
        self.year as int
    }

    /// The month, at the specification level.
    pub closed spec fn spec_month(&self) -> int {
        self.month as int
    }

    /// The day of the month, at the specification level.
    pub closed spec fn spec_day(&self) -> int {
        self.day as int
    }

    /// Builds a date, accepting exactly the valid calendar dates.
    pub fn new(year: u32, month: u32, day: u32) -> (r: Option<Date>)
        ensures
            match r {
                Some(d) => {
                    &&& spec_date_valid(year as int, month as int, day as int)
                    &&& d.spec_year() == year as int
                    &&& d.spec_month() == month as int
                    &&& d.spec_day() == day as int
                },
                None => !spec_date_valid(year as int, month as int, day as int),
            },
    {
        if 1 <= year && year <= MAX_YEAR && 1 <= month && month <= 12 && 1 <= day && day
            <= days_in_month(year, month) {
            Some(Date { year, month, day })
        } else {
            None
        }
    }

    /// The year.
    pub fn year(&self) -> (y: u32)
        ensures
            y as int == self.spec_year(),
    {
        self.year
    }

    /// The month.
    pub fn month(&self) -> (m: u32)
        ensures
            m as int == self.spec_month(),
    {
        self.month
    }

    /// The day of the month.
    pub fn day(&self) -> (d: u32)
        ensures
            d as int == self.spec_day(),
    {
        self.day
    }

    /// The day number of this date (days since 1970-01-01, negative before).
    pub fn day_number(&self) -> (n: i64)
        ensures
            n == spec_day_number(self.spec_year(), self.spec_month(), self.spec_day()),
            -719469 < n < 96000000,
    {
        proof {
            use_type_invariant(self);
        }
        let y = self.year as u64;
        let m = self.month as u64;
        let d = self.day as u64;
        let yy: u64 = if m <= 2 {
            y - 1
        } else {
            y
        };
        let era: u64 = yy / 400;
        let yoe: u64 = yy - era * 400;
        let mp: u64 = (m + 9) % 12;
        let doy: u64 = (153 * mp + 2) / 5 + d - 1;
        let doe: u64 = yoe * 365 + yoe / 4 - yoe / 100 + doy;
        (era as i64) * 146097 + (doe as i64) - 719468
    }

    /// Renders the date as `YYYY-MM-DD` (with a leading `+` on the year when
    /// it has five or six digits).
    pub fn to_text(&self) -> (s: String)
        ensures
            s@ == spec_date_text(
                self.spec_year() as nat,
                self.spec_month() as nat,
                self.spec_day() as nat,
            ),
    {
        proof {
            use_type_invariant(self);
        }
        let mut s = String::new();
        if self.year <= 9999 {
            let t = fmt_pad4(self.year as u64);
            s.append(t.as_str());
        } else {
            push_char(&mut s, '+');
            let t = fmt_u64(self.year as u64);
            s.append(t.as_str());
        }
        push_char(&mut s, '-');
        let t = fmt_pad2(self.month as u64);
        s.append(t.as_str());
        push_char(&mut s, '-');
        let t = fmt_pad2(self.day as u64);
        s.append(t.as_str());
        assert(s@ =~= spec_date_text(
            self.spec_year() as nat,
            self.spec_month() as nat,
            self.spec_day() as nat,
        ));
        s
    }
}

/// The number of days in a month of a given year.
pub fn days_in_month(year: u32, month: u32) -> (n: u32)
    requires
        1 <= month <= 12,
    ensures
        n as int == spec_days_in_month(year as int, month as int),
{
    if month == 2 {
        if is_leap_year(year) {
            29
        } else {
            28
        }
    } else if month == 4 || month == 6 || month == 9 || month == 11 {
        30
    } else {
        31
    }
}

/// Whether a year is a leap year.
pub fn is_leap_year(year: u32) -> (r: bool)
    ensures
        r == spec_is_leap_year(year as int),
{
    (year % 4 == 0 && year % 100 != 0) || year % 400 == 0
}

/// Relies on chrono's `Utc::now` (through `DateTime::date_naive`) and the
/// `Datelike` accessors `year`, `month` and `day`: the current UTC calendar
/// date as plain year, month and day, with the month in 1..=12 and the day
/// in 1..=31 as chrono documents.
#[verifier::external_body]
fn current_date_parts() -> (r: (i64, u32, u32))
    ensures
        1 <= r.1 <= 12,
        1 <= r.2 <= 31,
{
    let d = chrono::Utc::now().date_naive();
    (chrono::Datelike::year(&d) as i64, chrono::Datelike::month(&d), chrono::Datelike::day(&d))
}

/// The current UTC date according to the system clock.
///
/// The clock is outside the verified world, so nothing is promised about the
/// value beyond its being a real calendar date; every function that computes
/// with a date takes it as an argument and is verified for all of them.  The
/// epoch fallback is unreachable for any real calendar date the clock
/// library can report.
pub fn today() -> Date {
    let (y, m, d) = current_date_parts();
    let fallback = 1970u32;
    if 1 <= y && y <= MAX_YEAR as i64 {
        match Date::new(y as u32, m, d) {
            Some(date) => date,
            None => Date::new(fallback, 1, 1).unwrap(),
        }
    } else {
        Date::new(fallback, 1, 1).unwrap()
    }
}

} // verus!
