//! End-of-life status of Ubuntu releases.

use chrono::Datelike;
use vstd::prelude::*;

use crate::codename::Codename;
use crate::version::{ParsedVersion, Version, VersionParseError, decimal, parse_version};

verus! {

/// A day of the proleptic Gregorian calendar.
#[derive(Clone, Copy, Debug, PartialEq, Eq, Structural)]
pub struct CalendarDate {
    pub year: i32,
    pub month: u32,
    pub day: u32,
}

pub open spec fn is_leap_year(y: int) -> bool {
    (y % 4 == 0 && y % 100 != 0) || y % 400 == 0
}

pub open spec fn days_in_month(y: int, m: int) -> int {
    if m == 2 {
        if is_leap_year(y) {
            29
        } else {
            28
        }
    } else if m == 4 || m == 6 || m == 9 || m == 11 {
        30
    } else {
        31
    }
}

/// A date that exists, within the years that `chrono::NaiveDate` represents.
pub open spec fn valid_date(d: CalendarDate) -> bool {
    &&& -262143 <= d.year <= 262142
    &&& 1 <= d.month <= 12
    &&& 1 <= d.day <= days_in_month(d.year as int, d.month as int)
}

/// `a` is an earlier day than `b`.
pub open spec fn date_before(a: CalendarDate, b: CalendarDate) -> bool {
    ||| a.year < b.year
    ||| (a.year == b.year && a.month < b.month)
    ||| (a.year == b.year && a.month == b.month && a.day < b.day)
}

/// The number of days from 1970-01-01 to the day `y`-`m`-`d` of the proleptic Gregorian
/// calendar (negative before it).
pub open spec fn days_from_civil(d: CalendarDate) -> int {
    let y: int = if d.month <= 2 {
        d.year - 1
    } else {
        d.year as int
    };
    let era = y / 400;
    let year_of_era = y - era * 400;
    let month_from_march = (d.month + 9) % 12;
    let day_of_year = (153 * month_from_march + 2) / 5 + d.day - 1;
    let day_of_era = year_of_era * 365 + year_of_era / 4 - year_of_era / 100 + day_of_year;
    era * 146097 + day_of_era - 719468
}

/// The number of days from `from` to `to`: negative when `to` is earlier.
pub open spec fn days_from(from: CalendarDate, to: CalendarDate) -> int {
    days_from_civil(to) - days_from_civil(from)
}

/// Signed number of days from `from` to `to`.
///
/// Trusted: builds both dates with `chrono::NaiveDate::from_ymd_opt`, which returns a date
/// for every valid day in chrono's range of years, and counts the days between them with
/// `NaiveDate::signed_duration_since` and `TimeDelta::num_days`; chrono's dates are days of
/// the proleptic Gregorian calendar, so the count is the difference of the days' numbers.
#[verifier::external_body]
fn days_between(from: CalendarDate, to: CalendarDate) -> (r: i64)
    requires
        valid_date(from),
        valid_date(to),
    ensures
        r == days_from(from, to),
{
    let from = chrono::NaiveDate::from_ymd_opt(from.year, from.month, from.day).unwrap();
    let to = chrono::NaiveDate::from_ymd_opt(to.year, to.month, to.day).unwrap();
    to.signed_duration_since(from).num_days()
}

/// Today's date in UTC.
///
/// Trusted: reads the clock with `chrono::Utc::now` and takes its `date_naive`; chrono only
/// produces valid dates. Which day it is depends on the clock, so nothing else is stated.
#[verifier::external_body]
fn today_utc() -> (d: CalendarDate)
    ensures
        valid_date(d),
{
    let now = chrono::Utc::now().date_naive();
    CalendarDate { year: now.year(), month: now.month(), day: now.day() }
}

/// The English name of the month `m` (1 to 12).
pub open spec fn month_name(m: u32) -> Seq<char> {
    if m == 1 {
        "January"@
    } else if m == 2 {
        "February"@
    } else if m == 3 {
        "March"@
    } else if m == 4 {
        "April"@
    } else if m == 5 {
        "May"@
    } else if m == 6 {
        "June"@
    } else if m == 7 {
        "July"@
    } else if m == 8 {
        "August"@
    } else if m == 9 {
        "September"@
    } else if m == 10 {
        "October"@
    } else if m == 11 {
        "November"@
    } else {
        "December"@
    }
}

/// A date as `%B %-d, %Y` writes it: the month's name, the day without padding, a comma
/// and the year.
pub open spec fn spec_long_date(d: CalendarDate) -> Seq<char> {
    month_name(d.month) + " "@ + decimal(d.day as nat) + ", "@ + decimal(d.year as nat)
}

/// The date `d` written out, such as "April 30, 2025".
///
/// Trusted: formats `chrono::NaiveDate::from_ymd_opt(..)` (a date for every valid day) with
/// `format("%B %-d, %Y")`. In chrono's source, `%B` writes the month's name from the
/// default (English) locale, `%-d` writes the day without padding, and `%Y` writes a year
/// from 1000 to 9999 as its four digits.
#[verifier::external_body]
pub(crate) fn long_date(d: CalendarDate) -> (r: String)
    requires
        valid_date(d),
        1000 <= d.year <= 9999,
    ensures
        r@ == spec_long_date(d),
{
    chrono::NaiveDate::from_ymd_opt(d.year, d.month, d.day).unwrap().format("%B %-d, %Y").to_string()
}

/// The date `y`-`m`-`d`.
pub fn ymd_to_utc(y: i32, m: u32, d: u32) -> (r: CalendarDate)
    requires
        valid_date(CalendarDate { year: y, month: m, day: d }),
    ensures
        r == (CalendarDate { year: y, month: m, day: d }),
{
    CalendarDate { year: y, month: m, day: d }
}

fn before(a: CalendarDate, b: CalendarDate) -> (r: bool)
    ensures
        r == date_before(a, b),
{
    a.year < b.year || (a.year == b.year && a.month < b.month) || (a.year == b.year && a.month
        == b.month && a.day < b.day)
}

#[derive(Clone, Copy, Debug, PartialEq, Eq, Structural)]
pub enum EolStatus {
    /// Still supported, and not close to the end of life.
    Supported,
    Imminent,
    Exceeded,
}

/// The number of days before the end of life in which it is imminent: a week for Groovy,
/// thirty days for every other release.
pub open spec fn imminent_window(codename: Codename) -> int {
    if codename == Codename::Groovy {
        7
    } else {
        30
    }
}

/// The status on a day that is `days_until` days before the end of life, or on or after it
/// when `reached` holds.
pub open spec fn spec_eol_status(codename: Codename, reached: bool, days_until: int) -> EolStatus {
    if reached {
        EolStatus::Exceeded
    } else if 0 <= days_until <= imminent_window(codename) {
        EolStatus::Imminent
    } else {
        EolStatus::Supported
    }
}

/// The end-of-life status of `codename` on a day `days_until` days before its end of life, or
/// on or after it when `reached` holds.
pub fn eol_status(codename: Codename, reached: bool, days_until: i64) -> (r: EolStatus)
    ensures
        r == spec_eol_status(codename, reached, days_until as int),
{
    let days_left: i64 = if codename == Codename::Groovy {
        7
    } else {
        30
    };
    if reached {
        EolStatus::Exceeded
    } else if days_until >= 0 && days_until <= days_left {
        EolStatus::Imminent
    } else {
        EolStatus::Supported
    }
}

pub struct EolDate {
    pub codename: Codename,
    pub version: Version,
    pub ymd: (u32, u32, u32),
}

#[derive(Debug)]
pub enum EolFetchError {
    /// failed to detect current Ubuntu release
    Version(VersionParseError),
    /// Invalid Ubuntu version
    InvalidVersion(Version),
}

impl EolDate {
    /// The end-of-life day, as a date.
    pub open spec fn eol_day(&self) -> CalendarDate {
        CalendarDate { year: self.ymd.0 as i32, month: self.ymd.1, day: self.ymd.2 }
    }

    pub open spec fn well_formed(&self) -> bool {
        self.ymd.0 <= 262142 && valid_date(self.eol_day())
    }

    /// The status on `date`.
    pub open spec fn spec_status_from(&self, date: CalendarDate) -> EolStatus {
        spec_eol_status(
            self.codename,
            !date_before(date, self.eol_day()),
            days_from(date, self.eol_day()),
        )
    }

    /// The end of life of a release.
    pub fn from_codename(codename: Codename) -> (r: EolDate)
        ensures
            r.codename == codename,
            (r.version.major, r.version.minor) == codename.spec_version_numbers(),
            r.version.patch == 0,
            r.ymd == codename.spec_eol_date(),
            r.well_formed(),
    {
        EolDate { codename, version: codename.version(), ymd: codename.eol_date() }
    }

    /// The end of life of the release whose `/etc/os-release` `VERSION` is `os_release_version`.
    pub fn fetch(os_release_version: &str) -> (r: Result<EolDate, EolFetchError>)
        ensures
            match parse_version(os_release_version@) {
                ParsedVersion::Version(v) => match Codename::spec_from_numbers(v.major, v.minor) {
                    Some(c) => r matches Ok(e) && e.codename == c && e.version == v && e.ymd
                        == c.spec_eol_date(),
                    None => r matches Err(EolFetchError::InvalidVersion(w)) && w == v,
                },
                other => r matches Err(EolFetchError::Version(e)) && e.outcome() == other,
            },
    {
        let version = match Version::parse(os_release_version) {
            Ok(v) => v,
            Err(e) => return Err(EolFetchError::Version(e)),
        };
        let codename = match Codename::from_version(version) {
            Some(c) => c,
            None => return Err(EolFetchError::InvalidVersion(version)),
        };
        Ok(EolDate { codename, version, ymd: codename.eol_date() })
    }

    /// The end-of-life status on `date`.
    pub fn status_from(&self, date: CalendarDate) -> (r: EolStatus)
        requires
            self.well_formed(),
            valid_date(date),
        ensures
            r == self.spec_status_from(date),
    {
        let (year, month, day) = self.ymd;
        let eol = ymd_to_utc(year as i32, month, day);
        let reached = !before(date, eol);
        let days_until = days_between(date, eol);
        eol_status(self.codename, reached, days_until)
    }

    /// The end-of-life status today.
    pub fn status(&self) -> (r: EolStatus)
        requires
            self.well_formed(),
        ensures
            exists|date: CalendarDate| valid_date(date) && r == self.spec_status_from(date),
    {
        let date = today_utc();
        self.status_from(date)
    }
}

impl From<Codename> for EolDate {
    fn from(codename: Codename) -> (r: EolDate) {
        EolDate::from_codename(codename)
    }
}

impl vstd::std_specs::convert::FromSpecImpl<Codename> for EolDate {
    open spec fn obeys_from_spec() -> bool {
        true
    }

    open spec fn from_spec(codename: Codename) -> EolDate {
        EolDate {
            codename,
            version: Version {
                major: codename.spec_version_numbers().0,
                minor: codename.spec_version_numbers().1,
                patch: 0,
            },
            ymd: codename.spec_eol_date(),
        }
    }
}

/// Check if an Ubuntu release is EOL'd on `date`.
pub fn is_eol_on(codename: Codename, date: CalendarDate) -> (r: bool)
    requires
        valid_date(date),
    ensures
        r == !date_before(
            date,
            CalendarDate {
                year: codename.spec_eol_date().0 as i32,
                month: codename.spec_eol_date().1,
                day: codename.spec_eol_date().2,
            },
        ),
{
    EolDate::from_codename(codename).status_from(date) == EolStatus::Exceeded
}

/// Check if an Ubuntu release is EOL'd.
pub fn is_eol(codename: Codename) -> (r: bool)
    ensures
        exists|date: CalendarDate|
            valid_date(date) && r == !date_before(
                date,
                CalendarDate {
                    year: codename.spec_eol_date().0 as i32,
                    month: codename.spec_eol_date().1,
                    day: codename.spec_eol_date().2,
                },
            ),
{
    let date = today_utc();
    is_eol_on(codename, date)
}

/// A release is past its end of life exactly on the days from its end-of-life date on; before
/// then it is imminent or fine, whatever the day count.
pub proof fn law_exceeded_iff_reached(e: EolDate, date: CalendarDate)
    ensures
        (e.spec_status_from(date) == EolStatus::Exceeded) == !date_before(date, e.eol_day()),
{
}

/// A release is never reported imminent more than its window of days before its end of life.
pub proof fn law_imminent_within_window(e: EolDate, date: CalendarDate)
    ensures
        e.spec_status_from(date) == EolStatus::Imminent ==> {
            let days = days_from(date, e.eol_day());
            0 <= days <= imminent_window(e.codename)
        },
{
}

/// The days of the years before year `y`, counted from year 0: a leap day every fourth year,
/// but not every hundredth unless every four hundredth.
pub open spec fn year_days(y: int) -> int {
    365 * y + y / 4 - y / 100 + y / 400
}

proof fn lemma_div_split(y: int, d: int, k: int)
    requires
        d > 0,
        k > 0,
        400int % d == 0,
        k == 400int / d,
    ensures
        y / d == k * (y / 400) + (y - (y / 400) * 400) / d,
{
    let e = y / 400;
    let r = y - e * 400;
    vstd::arithmetic::div_mod::lemma_fundamental_div_mod(y, 400);
    vstd::arithmetic::div_mod::lemma_fundamental_div_mod(r, d);
    assert(k * d == 400) by (nonlinear_arith)
        requires
            400int % d == 0,
            k == 400int / d,
            d > 0,
    ;
    assert(y == (k * e + r / d) * d + r % d) by (nonlinear_arith)
        requires
            y == 400 * e + r,
            r == d * (r / d) + r % d,
            k * d == 400,
    ;
    vstd::arithmetic::div_mod::lemma_mod_pos_bound(r, d);
    vstd::arithmetic::div_mod::lemma_fundamental_div_mod_converse(y, d, k * e + r / d, r % d);
}

/// The day number of a date is the days of the years before its (March-based) year, the
/// days of its year before its month, and its day.
proof fn lemma_days_from_civil(d: CalendarDate)
    ensures
        ({
            let y: int = if d.month <= 2 {
                d.year - 1
            } else {
                d.year as int
            };
            days_from_civil(d) == year_days(y) + (153 * ((d.month + 9) % 12) + 2) / 5 + d.day - 1
                - 719468
        }),
{
    let y: int = if d.month <= 2 {
        d.year - 1
    } else {
        d.year as int
    };
    lemma_div_split(y, 4, 100);
    lemma_div_split(y, 100, 4);
    lemma_div_split(y, 400, 1);
}

/// A year has 365 days, and one more in a leap year.
proof fn lemma_year_days_step(y: int)
    ensures
        year_days(y) - year_days(y - 1) == 365 + (if is_leap_year(y) {
            1int
        } else {
            0int
        }),
{
    assert forall|k: int| k > 0 implies #[trigger] (y / k) - (y - 1) / k == (if y % k == 0 {
        1int
    } else {
        0int
    }) by {
        vstd::arithmetic::div_mod::lemma_fundamental_div_mod(y, k);
        vstd::arithmetic::div_mod::lemma_fundamental_div_mod(y - 1, k);
        vstd::arithmetic::div_mod::lemma_mod_bound(y, k);
        vstd::arithmetic::div_mod::lemma_mod_bound(y - 1, k);
        let q = y / k;
        let r = y % k;
        if r == 0 {
            assert(y - 1 == (q - 1) * k + (k - 1)) by (nonlinear_arith)
                requires
                    y == k * q + r,
                    r == 0,
            ;
            vstd::arithmetic::div_mod::lemma_fundamental_div_mod_converse(y - 1, k, q - 1, k - 1);
        } else {
            assert(y - 1 == q * k + (r - 1)) by (nonlinear_arith)
                requires
                    y == k * q + r,
            ;
            vstd::arithmetic::div_mod::lemma_fundamental_div_mod_converse(y - 1, k, q, r - 1);
        }
    }
    assert((y / 4) - (y - 1) / 4 == (if y % 4 == 0 { 1int } else { 0int }));
    assert((y / 100) - (y - 1) / 100 == (if y % 100 == 0 { 1int } else { 0int }));
    assert((y / 400) - (y - 1) / 400 == (if y % 400 == 0 { 1int } else { 0int }));
    if y % 400 == 0 {
        assert(y % 100 == 0 && y % 4 == 0) by {
            vstd::arithmetic::div_mod::lemma_fundamental_div_mod(y, 400);
            vstd::arithmetic::div_mod::lemma_fundamental_div_mod_converse(y, 100, 4 * (y / 400), 0);
            vstd::arithmetic::div_mod::lemma_fundamental_div_mod_converse(y, 4, 100 * (y / 400), 0);
        }
    } else if y % 100 == 0 {
        assert(y % 4 == 0) by {
            vstd::arithmetic::div_mod::lemma_fundamental_div_mod(y, 100);
            vstd::arithmetic::div_mod::lemma_fundamental_div_mod_converse(y, 4, 25 * (y / 100), 0);
        }
    }
}

/// The first day of month `m` of year `y`.
pub open spec fn month_start(y: i32, m: u32) -> int {
    days_from_civil(CalendarDate { year: y, month: m, day: 1 })
}

/// Each month starts the days of the month before after that month started.
proof fn lemma_next_month(y: i32, m: u32)
    requires
        1 <= m <= 11,
    ensures
        month_start(y, (m + 1) as u32) == month_start(y, m) + days_in_month(y as int, m as int),
{
    lemma_days_from_civil(CalendarDate { year: y, month: m, day: 1 });
    lemma_days_from_civil(CalendarDate { year: y, month: (m + 1) as u32, day: 1 });
    if m == 2 {
        lemma_year_days_step(y as int);
    }
}

/// January starts 31 days after December of the year before.
proof fn lemma_next_year(y: i32)
    requires
        y < i32::MAX,
    ensures
        month_start((y + 1) as i32, 1) == month_start(y, 12) + 31,
{
    lemma_days_from_civil(CalendarDate { year: y, month: 12, day: 1 });
    lemma_days_from_civil(CalendarDate { year: (y + 1) as i32, month: 1, day: 1 });
}

proof fn lemma_day_in_month(d: CalendarDate)
    ensures
        days_from_civil(d) == month_start(d.year, d.month) + d.day - 1,
{
    lemma_days_from_civil(d);
    lemma_days_from_civil(CalendarDate { year: d.year, month: d.month, day: 1 });
}

/// Later months of a year start later; a month's days all come before the next month.
proof fn lemma_months_ordered(y: i32, m1: u32, m2: u32)
    requires
        1 <= m1 < m2 <= 12,
    ensures
        month_start(y, m1) + days_in_month(y as int, m1 as int) <= month_start(y, m2),
    decreases m2 - m1,
{
    lemma_next_month(y, m1);
    if m1 + 1 < m2 {
        lemma_months_ordered(y, (m1 + 1) as u32, m2);
    }
}

/// Every day of a year comes before the next year starts.
proof fn lemma_before_next_year(d: CalendarDate)
    requires
        valid_date(d),
    ensures
        days_from_civil(d) < month_start((d.year + 1) as i32, 1),
{
    lemma_day_in_month(d);
    lemma_next_year(d.year);
    if d.month < 12 {
        lemma_months_ordered(d.year, d.month, 12);
    }
}

/// The first day of a year is not before any day of an earlier year.
proof fn lemma_years_ordered(y1: i32, d: CalendarDate)
    requires
        y1 < d.year,
        valid_date(d),
        -262143 <= y1,
    ensures
        month_start(y1, 12) + 31 <= days_from_civil(d),
    decreases d.year - y1,
{
    lemma_next_year(y1);
    let next = (y1 + 1) as i32;
    lemma_day_in_month(d);
    if next < d.year {
        lemma_years_ordered(next, d);
        lemma_before_next_year(CalendarDate { year: next, month: 1, day: 1 });
        assert(days_from_civil(CalendarDate { year: next, month: 12, day: 31 }) < month_start(
            (next + 1) as i32,
            1,
        )) by {
            lemma_before_next_year(CalendarDate { year: next, month: 12, day: 31 });
        }
        lemma_day_in_month(CalendarDate { year: next, month: 12, day: 31 });
        lemma_next_year(next);
    } else {
        if d.month > 1 {
            lemma_months_ordered(d.year, 1, d.month);
        }
    }
}

/// Earlier days have smaller day numbers.
proof fn lemma_days_ordered(a: CalendarDate, b: CalendarDate)
    requires
        valid_date(a),
        valid_date(b),
        date_before(a, b),
    ensures
        days_from_civil(a) < days_from_civil(b),
{
    lemma_day_in_month(a);
    lemma_day_in_month(b);
    if a.year < b.year {
        lemma_before_next_year(a);
        lemma_next_year(a.year);
        lemma_years_ordered(a.year, b);
    } else if a.month < b.month {
        lemma_months_ordered(a.year, a.month, b.month);
    }
}

/// The end of life is reached exactly when it is no day away: a day before the end-of-life
/// date is a positive number of days before it, and a day on or after it is not.
pub proof fn law_reached_iff_no_days_left(date: CalendarDate, eol: CalendarDate)
    requires
        valid_date(date),
        valid_date(eol),
    ensures
        !date_before(date, eol) <==> days_from(date, eol) <= 0,
{
    if date_before(date, eol) {
        lemma_days_ordered(date, eol);
    } else if date_before(eol, date) {
        lemma_days_ordered(eol, date);
    } else {
        assert(date == eol);
    }
}

/// The status follows from the days left alone: past the end of life when no day is left,
/// imminent when at most the window of days is left, supported before that.
pub proof fn law_status_by_days_left(e: EolDate, date: CalendarDate)
    requires
        e.well_formed(),
        valid_date(date),
    ensures
        ({
            let days = days_from(date, e.eol_day());
            e.spec_status_from(date) == if days <= 0 {
                EolStatus::Exceeded
            } else if days <= imminent_window(e.codename) {
                EolStatus::Imminent
            } else {
                EolStatus::Supported
            }
        }),
{
    law_reached_iff_no_days_left(date, e.eol_day());
}

} // verus!
