//! Calendar dates and UTC instants as plain values, and the calls into
//! `chrono` that the rest of the library makes on them.
//!
//! A [`Date`] is chrono's day number (`num_days_from_ce`, 0001-01-01 is day
//! 1); a [`UtcTime`] is a UNIX timestamp with its sub-second nanoseconds.
//! Arithmetic on day numbers and the UTC clock fields are computed here;
//! calendar conversions, ISO weeks, parsing and formatting go to chrono.

use crate::text::int_padded;
use chrono::{DateTime, Datelike, NaiveDate, SecondsFormat, Utc, Weekday};
use vstd::prelude::*;

verus! {

/// Day number of `NaiveDate::MIN` (January 1, 262144 BCE).
pub open spec fn min_date_days() -> int {
    -95746129
}

/// Day number of `NaiveDate::MAX` (December 31, 262142 CE).
pub open spec fn max_date_days() -> int {
    95745399
}

/// Whether chrono can represent the date with this day number.
pub open spec fn date_valid(days: int) -> bool {
    min_date_days() <= days <= max_date_days()
}

/// Day number of 1970-01-01.
pub open spec fn unix_epoch_day() -> int {
    719163
}

/// A calendar date: chrono's day number counted from 0001-01-01 (day 1).
#[derive(Debug, Clone, Copy, PartialEq, Eq)]
pub struct Date {
    pub days: i32,
}

impl Date {
    pub open spec fn valid(self) -> bool {
        date_valid(self.days as int)
    }

    /// The date `n` days later (earlier for negative `n`), or `None` when it
    /// lies outside chrono's range (`NaiveDate::checked_add_signed`).
    pub fn checked_add_days(self, n: i64) -> (res: Option<Date>)
        requires
            self.valid(),
        ensures
            date_valid(self.days + n) ==> res == Some(Date { days: (self.days + n) as i32 }),
            !date_valid(self.days + n) ==> res is None,
    {
        if n < -200_000_000 || n > 200_000_000 {
            return None;
        }
        let d: i64 = self.days as i64 + n;
        if d < -95746129 || d > 95745399 {
            None
        } else {
            Some(Date { days: d as i32 })
        }
    }

    /// Whole days from `other` to `self` (`(self - other).num_days()`).
    pub fn days_since(self, other: Date) -> (res: i64)
        ensures
            res == self.days - other.days,
    {
        self.days as i64 - other.days as i64
    }

    /// The weekday, counted from Monday (0) to Sunday (6).
    pub open spec fn weekday_spec(self) -> int {
        (self.days as int + 6) % 7
    }

    pub fn weekday_from_monday(self) -> (res: u32)
        ensures
            res == self.weekday_spec(),
    {
        let x: i64 = self.days as i64 + 6;
        match x.checked_rem_euclid(7) {
            Some(v) => v as u32,
            None => 0,
        }
    }
}

/// A leap year of the proleptic Gregorian calendar.
pub open spec fn is_leap_year(y: int) -> bool {
    y % 4 == 0 && (y % 100 != 0 || y % 400 == 0)
}

/// The days of month `m` of year `y`.
pub open spec fn month_length(y: int, m: int) -> int {
    if m == 2 {
        if is_leap_year(y) {
            29
        } else {
            28
        }
    } else if m == 4 || m == 6 || m == 9 || m == 11 {
        30
    } else {
        31
    }
}

/// The days of the months before month `m` of year `y`.
pub open spec fn days_before_month(y: int, m: int) -> int
    decreases m,
{
    if m <= 1 {
        0
    } else {
        days_before_month(y, m - 1) + month_length(y, m - 1)
    }
}

/// The day number of December 31 of the year before `y` (day 1 is
/// 0001-01-01): 365 days a year plus one per leap year.
pub open spec fn days_before_year(y: int) -> int {
    365 * (y - 1) + (y - 1) / 4 - (y - 1) / 100 + (y - 1) / 400
}

/// The day number chrono gives `y-m-d`, if that is a date in its range
/// (`NaiveDate::from_ymd_opt`).
pub open spec fn chrono_ymd(y: int, m: int, d: int) -> Option<int> {
    let days = days_before_year(y) + days_before_month(y, m) + d;
    if 1 <= m <= 12 && 1 <= d <= month_length(y, m) && date_valid(days) {
        Some(days)
    } else {
        None
    }
}

/// The weekday of a day number, counted from Monday (0) to Sunday (6).
pub open spec fn weekday_of(days: int) -> int {
    (days + 6) % 7
}

/// The number of ISO weeks of ISO year `y`: 53 when January 1 is a
/// Thursday, or a Wednesday in a leap year; 52 otherwise.
pub open spec fn iso_weeks_in_year(y: int) -> int {
    let jan1 = weekday_of(days_before_year(y) + 1);
    if jan1 == 3 || (is_leap_year(y) && jan1 == 2) {
        53
    } else {
        52
    }
}

/// The Monday of ISO week 1 of ISO year `y`: the Monday of the week that
/// holds January 4.
pub open spec fn iso_week1_monday(y: int) -> int {
    let jan4 = days_before_year(y) + 4;
    jan4 - weekday_of(jan4)
}

/// The Monday of ISO week `week` of ISO year `year`, if that week exists
/// and its Monday lies in chrono's range
/// (`NaiveDate::from_isoywd_opt(year, week, Weekday::Mon)`).
pub open spec fn chrono_iso_monday(year: int, week: int) -> Option<int> {
    let monday = iso_week1_monday(year) + 7 * (week - 1);
    if 1 <= week <= iso_weeks_in_year(year) && date_valid(monday) {
        Some(monday)
    } else {
        None
    }
}

proof fn lemma_div_step(y: int, k: int)
    requires
        k > 0,
    ensures
        y / k - (y - 1) / k == if y % k == 0 {
            1int
        } else {
            0int
        },
{
    let q = (y - 1) / k;
    let r = (y - 1) % k;
    assert(y - 1 == k * q + r && 0 <= r < k) by (nonlinear_arith)
        requires
            k > 0,
            q == (y - 1) / k,
            r == (y - 1) % k,
    ;
    if r == k - 1 {
        assert(y == k * (q + 1)) by (nonlinear_arith)
            requires
                y - 1 == k * q + r,
                r == k - 1,
        ;
        assert(y / k == q + 1 && y % k == 0) by (nonlinear_arith)
            requires
                y == k * (q + 1),
                k > 0,
        ;
    } else {
        assert(y == k * q + (r + 1));
        assert(y / k == q && y % k == r + 1) by (nonlinear_arith)
            requires
                y == k * q + (r + 1),
                0 <= r + 1 < k,
        ;
    }
}

/// A year has 366 days when it is a leap year and 365 otherwise.
pub proof fn law_year_length(y: int)
    ensures
        days_before_year(y + 1) - days_before_year(y) == if is_leap_year(y) {
            366int
        } else {
            365int
        },
{
    lemma_div_step(y, 4);
    lemma_div_step(y, 100);
    lemma_div_step(y, 400);
    assert(y % 400 == 0 ==> y % 100 == 0 && y % 4 == 0) by {
        if y % 400 == 0 {
            let q = y / 400;
            assert(y == 400 * q) by (nonlinear_arith)
                requires
                    y % 400 == 0,
                    q == y / 400,
            ;
            assert(y == 100 * (4 * q) && y == 4 * (100 * q));
            assert((100 * (4 * q)) % 100 == 0) by (nonlinear_arith);
            assert((4 * (100 * q)) % 4 == 0) by (nonlinear_arith);
        }
    }
    assert(y % 100 == 0 ==> y % 4 == 0) by {
        if y % 100 == 0 {
            let q = y / 100;
            assert(y == 100 * q) by (nonlinear_arith)
                requires
                    y % 100 == 0,
                    q == y / 100,
            ;
            assert(y == 4 * (25 * q));
            assert((4 * (25 * q)) % 4 == 0) by (nonlinear_arith);
        }
    }
}

proof fn lemma_iso_step(d: int, n: int, l: int)
    requires
        n == d + 365 + l,
        0 <= l <= 1,
    ensures
        (d + 4 - weekday_of(d + 4)) + 7 * (if weekday_of(d + 1) == 3 || (l == 1 && weekday_of(d + 1)
            == 2) {
            53int
        } else {
            52int
        }) == n + 4 - weekday_of(n + 4),
{
    let q = d / 7;
    let r = d % 7;
    assert(d == 7 * q + r && 0 <= r < 7);
    assert(weekday_of(d + 1) == r) by {
        assert(d + 1 + 6 == 7 * (q + 1) + r);
    }
    assert(weekday_of(d + 4) == (r + 3) % 7) by {
        assert(d + 4 + 6 == 7 * (q + 1) + (r + 3));
    }
    assert(weekday_of(n + 4) == (r + 4 + l) % 7) by {
        assert(n + 4 + 6 == 7 * (q + 53) + (r + 4 + l));
    }
}

/// ISO week 1 starts on a Monday.
pub proof fn lemma_week1_monday_is_monday(y: int)
    ensures
        weekday_of(iso_week1_monday(y)) == 0,
{
    let jan4 = days_before_year(y) + 4;
    let t = (jan4 + 6) / 7;
    let r = (jan4 + 6) % 7;
    assert(jan4 + 6 == 7 * t + r);
    assert(iso_week1_monday(y) + 6 == 7 * t);
}

/// ISO years follow each other without gap or overlap: the week after the
/// last week of ISO year `y` is week 1 of year `y + 1`.
pub proof fn law_iso_years_are_consecutive(y: int)
    ensures
        iso_week1_monday(y) + 7 * iso_weeks_in_year(y) == iso_week1_monday(y + 1),
{
    law_year_length(y);
    let d = days_before_year(y);
    let n = days_before_year(y + 1);
    let l: int = if is_leap_year(y) {
        1
    } else {
        0
    };
    lemma_iso_step(d, n, l);
}

/// The calendar year of a day number (`Datelike::year`): the year whose
/// days run from after [`days_before_year`] of it to that of the next.
pub open spec fn chrono_year(days: int) -> int {
    choose|y: int| #[trigger] days_before_year(y) < days <= days_before_year(y + 1)
}

/// Later years begin later: at least 365 days per year in between.
pub proof fn lemma_days_before_year_monotone(a: int, b: int)
    requires
        a <= b,
    ensures
        days_before_year(a) + 365 * (b - a) <= days_before_year(b),
    decreases b - a,
{
    if a < b {
        lemma_days_before_year_monotone(a, b - 1);
        law_year_length(b - 1);
    }
}

/// A day between the start of year `y` and the start of the next lies in
/// year `y`.
pub proof fn lemma_chrono_year(d: int, y: int)
    requires
        days_before_year(y) < d <= days_before_year(y + 1),
    ensures
        chrono_year(d) == y,
{
    assert(days_before_year(y) < d <= days_before_year(y + 1));
    let z = chrono_year(d);
    assert(days_before_year(z) < d <= days_before_year(z + 1));
    if z < y {
        lemma_days_before_year_monotone(z + 1, y);
    } else if z > y {
        lemma_days_before_year_monotone(y + 1, z);
    }
}

/// ISO year and ISO week number of a date (`Datelike::iso_week`): the year
/// of the week's Thursday, and the week of that Thursday in its year.
pub open spec fn chrono_iso_week(days: int) -> (int, int) {
    let thursday = days - weekday_of(days) + 3;
    let y = chrono_year(thursday);
    (y, (thursday - days_before_year(y) - 1) / 7 + 1)
}

/// The date `NaiveDate::parse_from_str(s, fmt)` reads, if it accepts `s`.
pub uninterp spec fn chrono_parse_date(s: Seq<char>, fmt: Seq<char>) -> Option<int>;

/// The month (1 to 12) of a day number: the month of its year whose days
/// hold the day's ordinal.
pub open spec fn month_of(days: int) -> int {
    let y = chrono_year(days);
    let ordinal = days - days_before_year(y);
    choose|m: int|
        1 <= m <= 12 && days_before_month(y, m) < ordinal <= #[trigger] days_before_month(y, m)
            + month_length(y, m)
}

/// The day of the month of a day number.
pub open spec fn day_of(days: int) -> int {
    let y = chrono_year(days);
    days - days_before_year(y) - days_before_month(y, month_of(days))
}

/// A year as chrono's `%Y` and RFC 3339 write it: four digits from 0000 to
/// 9999, otherwise with a sign and at least four digits.
pub open spec fn year_text(y: int) -> Seq<char> {
    if 0 <= y <= 9999 {
        int_padded(y, 4)
    } else if y < 0 {
        int_padded(y, 5)
    } else {
        seq!['+'] + int_padded(y, 4)
    }
}

/// The text `date.format(fmt)` renders, for the formats the library uses
/// ([`known_date_format`]): `%Y` as [`year_text`], `%y` as the last two
/// digits of the year, `%m` and `%d` as two digits, `%A` as the English
/// weekday name. The library renders no other format. Opaque: reveal it
/// where the text itself matters.
#[verifier::opaque]
pub open spec fn chrono_format_date(days: int, fmt: Seq<char>) -> Seq<char> {
    let y = chrono_year(days);
    let mm = int_padded(month_of(days), 2);
    let dd = int_padded(day_of(days), 2);
    if fmt == "%Y%m%d"@ {
        year_text(y) + mm + dd
    } else if fmt == "%Y-%m-%d"@ {
        year_text(y) + seq!['-'] + mm + seq!['-'] + dd
    } else if fmt == "%d.%m.%Y"@ {
        dd + seq!['.'] + mm + seq!['.'] + year_text(y)
    } else if fmt == "%d.%m.%y"@ {
        dd + seq!['.'] + mm + seq!['.'] + int_padded(y % 100, 2)
    } else if fmt == "%A"@ {
        weekday_name(weekday_of(days))
    } else {
        Seq::empty()
    }
}

/// The instant (timestamp and nanoseconds) that
/// `DateTime::parse_from_rfc3339(s)` reads, converted to UTC.
pub uninterp spec fn chrono_parse_rfc3339(s: Seq<char>) -> Option<(int, int)>;

/// `to_rfc3339_opts(SecondsFormat::Secs, true)` of an instant:
/// `YYYY-MM-DDTHH:MM:SSZ` in UTC, the year as [`year_text`], the
/// fraction dropped, and a leap second shown as second 60. Opaque: reveal
/// it where the text itself matters.
#[verifier::opaque]
pub open spec fn chrono_rfc3339_secs(secs: int, nanos: int) -> Seq<char> {
    let days = secs / 86400 + unix_epoch_day();
    let sod = secs % 86400;
    let second = sod % 60 + if nanos >= 1_000_000_000 {
        1int
    } else {
        0int
    };
    year_text(chrono_year(days)) + seq!['-'] + int_padded(month_of(days), 2) + seq!['-']
        + int_padded(day_of(days), 2) + seq!['T'] + int_padded(sod / 3600, 2) + seq![':']
        + int_padded(sod % 3600 / 60, 2) + seq![':'] + int_padded(second, 2) + seq!['Z']
}

/// `a.signed_duration_since(b)` as seconds and nanoseconds.
pub uninterp spec fn chrono_duration_since(
    a_secs: int,
    a_nanos: int,
    b_secs: int,
    b_nanos: int,
) -> (int, int);

/// The day-number view of an optional date.
pub open spec fn opt_days(d: Option<Date>) -> Option<int> {
    match d {
        Some(x) => Some(x.days as int),
        None => None,
    }
}

/// The English name of a weekday counted from Monday (0) to Sunday (6).
pub open spec fn weekday_name(w: int) -> Seq<char> {
    if w == 0 {
        "Monday"@
    } else if w == 1 {
        "Tuesday"@
    } else if w == 2 {
        "Wednesday"@
    } else if w == 3 {
        "Thursday"@
    } else if w == 4 {
        "Friday"@
    } else if w == 5 {
        "Saturday"@
    } else {
        "Sunday"@
    }
}

/// The date formats the library renders; chrono renders each of them for
/// every date in its range.
pub open spec fn known_date_format(fmt: Seq<char>) -> bool {
    ||| fmt == "%d.%m.%Y"@
    ||| fmt == "%d.%m.%y"@
    ||| fmt == "%Y%m%d"@
    ||| fmt == "%Y-%m-%d"@
    ||| fmt == "%A"@
}

/// `NaiveDate::from_ymd_opt(y, m, d)`: the date, when it exists.
#[verifier::external_body]
pub(crate) fn date_from_ymd(y: i32, m: u32, d: u32) -> (res: Option<Date>)
    ensures
        opt_days(res) == chrono_ymd(y as int, m as int, d as int),
        res matches Some(r) ==> r.valid(),
        (1 <= m <= 12 && 1 <= d <= 28 && -262143 <= y <= 262142) ==> res is Some,
        (m == 12 && d == 31 && -262143 <= y <= 262142) ==> res is Some,
{
    match NaiveDate::from_ymd_opt(y, m, d) {
        Some(x) => Some(Date { days: x.num_days_from_ce() }),
        None => None,
    }
}

/// `NaiveDate::from_isoywd_opt(year, week, Weekday::Mon)`: the Monday of an
/// ISO week, when that week exists. Only for years in chrono's range: for a
/// week 1 that starts in the previous year chrono computes `year - 1`,
/// which overflows at the edge of `i32`.
#[verifier::external_body]
pub(crate) fn iso_week_monday(year: i32, week: u32) -> (res: Option<Date>)
    requires
        -262143 <= year <= 262142,
    ensures
        opt_days(res) == chrono_iso_monday(year as int, week as int),
        res matches Some(r) ==> r.valid(),
        (-262142 <= year <= 262142 && 1 <= week <= 52) ==> res is Some,
{
    match NaiveDate::from_isoywd_opt(year, week, Weekday::Mon) {
        Some(x) => Some(Date { days: x.num_days_from_ce() }),
        None => None,
    }
}

/// `date.iso_week()`: ISO year and week number of a date.
#[verifier::external_body]
pub(crate) fn iso_week_of(d: Date) -> (res: (i32, u32))
    requires
        d.valid(),
    ensures
        (res.0 as int, res.1 as int) == chrono_iso_week(d.days as int),
        1 <= res.1 <= 53,
{
    let date = NaiveDate::from_num_days_from_ce_opt(d.days).unwrap();
    let w = date.iso_week();
    (w.year(), w.week())
}

/// `date.year()`: the calendar year of a date.
#[verifier::external_body]
pub(crate) fn year_of(d: Date) -> (res: i32)
    requires
        d.valid(),
    ensures
        res as int == chrono_year(d.days as int),
        days_before_year(res as int) < d.days <= days_before_year(res as int + 1),
        -262143 <= res <= 262142,
{
    NaiveDate::from_num_days_from_ce_opt(d.days).unwrap().year()
}

/// `NaiveDate::parse_from_str(s, fmt)`: the date in `s`, if it parses.
#[verifier::external_body]
pub(crate) fn parse_date(s: &str, fmt: &str) -> (res: Option<Date>)
    ensures
        opt_days(res) == chrono_parse_date(s@, fmt@),
        res matches Some(r) ==> r.valid(),
{
    match NaiveDate::parse_from_str(s, fmt) {
        Ok(x) => Some(Date { days: x.num_days_from_ce() }),
        Err(_) => None,
    }
}

/// `date.format(fmt).to_string()`.
#[verifier::external_body]
pub(crate) fn format_date(d: Date, fmt: &str) -> (res: String)
    requires
        d.valid(),
        known_date_format(fmt@),
    ensures
        res@ == chrono_format_date(d.days as int, fmt@),
        fmt@ == "%A"@ ==> res@ == weekday_name(d.weekday_spec()),
{
    NaiveDate::from_num_days_from_ce_opt(d.days).unwrap().format(fmt).to_string()
}

/// An instant in UTC: seconds since 1970-01-01T00:00:00Z (leap seconds not
/// counted) and the nanoseconds into that second.
#[derive(Debug, Clone, Copy, PartialEq, Eq)]
pub struct UtcTime {
    pub secs: i64,
    pub nanos: u32,
}

impl UtcTime {
    /// The day number of the instant's UTC date.
    pub open spec fn date_days(self) -> int {
        self.secs as int / 86400 + unix_epoch_day()
    }

    /// Seconds since midnight of the instant's UTC date.
    pub open spec fn second_of_day(self) -> int {
        self.secs as int % 86400
    }

    /// Whether chrono represents this instant (`DateTime::from_timestamp`
    /// accepts it): its date lies in chrono's range, and nanoseconds beyond
    /// one second only mark a leap second at the end of a minute.
    pub open spec fn valid(self) -> bool {
        &&& date_valid(self.date_days())
        &&& (self.nanos < 1_000_000_000 || (self.nanos < 2_000_000_000 && self.second_of_day()
            % 60 == 59))
    }

    /// The UTC hour of the instant (0..=23).
    pub open spec fn hour_spec(self) -> int {
        self.second_of_day() / 3600
    }

    /// `DateTime::<Utc>::hour`.
    pub fn hour(self) -> (res: u32)
        ensures
            res == self.hour_spec(),
            res < 24,
    {
        let r: i64 = match self.secs.checked_rem_euclid(86400) {
            Some(v) => v,
            None => 0,
        };
        (r / 3600) as u32
    }

    /// `DateTime::<Utc>::date_naive`.
    pub fn date(self) -> (res: Date)
        requires
            self.valid(),
        ensures
            res.days == self.date_days(),
            res.valid(),
    {
        let d: i64 = match self.secs.checked_div_euclid(86400) {
            Some(v) => v,
            None => 0,
        };
        Date { days: (d + 719163) as i32 }
    }
}

/// The message of the error that `DateTime::parse_from_rfc3339(s)` reports
/// when it rejects `s`.
pub uninterp spec fn chrono_rfc3339_error(s: Seq<char>) -> Seq<char>;

/// `s` is the whole-second RFC 3339 text of `t`, an instant outside a leap
/// second in the years 0000 to 9999.
pub open spec fn whole_second_text_of(s: Seq<char>, t: UtcTime) -> bool {
    &&& t.valid()
    &&& t.nanos < 1_000_000_000
    &&& 0 <= chrono_year(t.date_days()) <= 9999
    &&& s == chrono_rfc3339_secs(t.secs as int, t.nanos as int)
}

/// When `s` is the whole-second text of an instant, the parse result is that
/// instant without its fraction.
pub open spec fn reads_back_whole_seconds(s: Seq<char>, res: Result<UtcTime, String>) -> bool {
    forall|t: UtcTime|
        #[trigger] whole_second_text_of(s, t) ==> (res matches Ok(u) && u.secs == t.secs && u.nanos
            == 0)
}

/// `DateTime::parse_from_rfc3339(s)` converted to UTC, or the message of
/// the parse error. The whole-second text that [`format_rfc3339_secs`]
/// writes for an instant outside a leap second, in years 0000 to 9999,
/// reads back as that instant without its fraction (chrono's parser takes
/// four year digits, the fields and the `Z` offset as written).
#[verifier::external_body]
pub(crate) fn parse_rfc3339(s: &str) -> (res: Result<UtcTime, String>)
    ensures
        res matches Ok(t) ==> t.valid() && chrono_parse_rfc3339(s@) == Some(
            (t.secs as int, t.nanos as int),
        ),
        res matches Err(m) ==> chrono_parse_rfc3339(s@) is None && m@ == chrono_rfc3339_error(
            s@,
        ),
        reads_back_whole_seconds(s@, res),
{
    match DateTime::parse_from_rfc3339(s) {
        Ok(t) => {
            let u = t.with_timezone(&Utc);
            Ok(UtcTime { secs: u.timestamp(), nanos: u.timestamp_subsec_nanos() })
        },
        Err(e) => Err(e.to_string()),
    }
}

/// `to_rfc3339_opts(SecondsFormat::Secs, true)`: whole seconds, `Z` suffix.
#[verifier::external_body]
pub(crate) fn format_rfc3339_secs(t: UtcTime) -> (res: String)
    requires
        t.valid(),
    ensures
        res@ == chrono_rfc3339_secs(t.secs as int, t.nanos as int),
{
    DateTime::from_timestamp(t.secs, t.nanos).unwrap().to_rfc3339_opts(SecondsFormat::Secs, true)
}

/// The text `DateTime::<Utc>::format(fmt)` renders for an instant.
pub uninterp spec fn chrono_format_utc(secs: int, nanos: int, fmt: Seq<char>) -> Seq<char>;

/// The instant formats the library renders; chrono renders each of them for
/// every instant it represents.
pub open spec fn known_utc_format(fmt: Seq<char>) -> bool {
    fmt == "%Y%m%dT%H%M%SZ"@
}

/// A character of an instant rendered with a known format: a digit, the
/// separators `T` and `Z`, or the sign chrono writes before a year outside
/// 0000 to 9999.
pub open spec fn utc_format_char(c: char) -> bool {
    (48 <= c as u32 <= 57) || c == 'T' || c == 'Z' || c == '+' || c == '-'
}

/// `DateTime::<Utc>::format(fmt).to_string()`. With the known format, each
/// specifier renders digits (`%Y` zero-padded, with a sign for years
/// outside 0000 to 9999), and the rest is the literal `T` and `Z`.
#[verifier::external_body]
pub(crate) fn format_utc(t: UtcTime, fmt: &str) -> (res: String)
    requires
        t.valid(),
        known_utc_format(fmt@),
    ensures
        res@ == chrono_format_utc(t.secs as int, t.nanos as int, fmt@),
        forall|i: int| 0 <= i < res@.len() ==> utc_format_char(#[trigger] res@[i]),
{
    DateTime::from_timestamp(t.secs, t.nanos).unwrap().format(fmt).to_string()
}

/// `Utc::now()`: the current instant. Two calls may return anything; what
/// holds of every outcome is that chrono represents it.
#[verifier::external_body]
pub(crate) fn utc_now() -> (res: UtcTime)
    ensures
        res.valid(),
{
    let u = Utc::now();
    UtcTime { secs: u.timestamp(), nanos: u.timestamp_subsec_nanos() }
}

/// A span of time as chrono's `TimeDelta` reports it: `num_seconds` (whole
/// seconds, rounded towards zero) and `subsec_nanos` (the rest, with the
/// same sign).
#[derive(Debug, Clone, Copy, PartialEq, Eq)]
pub struct Span {
    pub secs: i64,
    pub subsec_nanos: i32,
}

impl Span {
    /// The span in nanoseconds.
    pub open spec fn total_nanos(self) -> int {
        self.secs as int * 1_000_000_000 + self.subsec_nanos as int
    }
}

/// `a.signed_duration_since(b)`, read back through `num_seconds` and
/// `subsec_nanos`. Outside leap seconds the span is the exact difference of
/// the two instants (chrono adds the day and the time differences, and
/// `num_seconds`/`subsec_nanos` split the total with the same sign); across
/// a leap second chrono counts it, which the name leaves unsaid.
#[verifier::external_body]
pub(crate) fn duration_since(a: UtcTime, b: UtcTime) -> (res: Span)
    requires
        a.valid(),
        b.valid(),
    ensures
        (res.secs as int, res.subsec_nanos as int) == chrono_duration_since(
            a.secs as int,
            a.nanos as int,
            b.secs as int,
            b.nanos as int,
        ),
        -1_000_000_000 < res.subsec_nanos < 1_000_000_000,
        a.nanos < 1_000_000_000 && b.nanos < 1_000_000_000 ==> res.total_nanos() == (a.secs
            - b.secs) * 1_000_000_000 + a.nanos - b.nanos,
{
    let x = DateTime::from_timestamp(a.secs, a.nanos).unwrap();
    let y = DateTime::from_timestamp(b.secs, b.nanos).unwrap();
    let d = x.signed_duration_since(y);
    Span { secs: d.num_seconds(), subsec_nanos: d.subsec_nanos() }
}

} // verus!
