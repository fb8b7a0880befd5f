//! Calendar dates and their textual forms.

use vstd::prelude::*;

verus! {

/// The earliest year a date can carry.
pub const MIN_YEAR: i32 = -262143;

/// The latest year a date can carry.
pub const MAX_YEAR: i32 = 262142;

/// Whether `year` is a leap year of the proleptic Gregorian calendar.
pub open spec fn is_leap_year(year: int) -> bool {
    year % 4 == 0 && (year % 100 != 0 || year % 400 == 0)
}

/// The number of days of `month` in `year`; zero for a month that does not exist.
pub open spec fn days_in_month(year: int, month: int) -> int {
    if month == 2 {
        if is_leap_year(year) { 29 } else { 28 }
    } else if month == 4 || month == 6 || month == 9 || month == 11 {
        30
    } else if 1 <= month <= 12 {
        31
    } else {
        0
    }
}

/// Whether year, month and day name a day that exists and that a date can carry.
pub open spec fn valid_ymd(year: int, month: int, day: int) -> bool {
    &&& MIN_YEAR <= year <= MAX_YEAR
    &&& 1 <= month <= 12
    &&& 1 <= day <= days_in_month(year, month)
}

/// A day of the proleptic Gregorian calendar, without a time of day.
#[derive(Clone, Copy, Debug, PartialEq, Eq, Structural)]
pub struct CalendarDate {
    year: i32,
    month: u32,
    day: u32,
}

/// The text that `chrono` writes for the day `year`-`month`-`day` under the
/// strftime-like `pattern`.
pub uninterp spec fn formatted_date(year: i32, month: u32, day: u32, pattern: Seq<char>) -> Seq<char>;

/// The patterns this library formats dates with: the slash-separated day,
/// the full year, the compact two-digit-year day, and the day in words.
pub open spec fn supported_pattern(pattern: Seq<char>) -> bool {
    pattern == "%Y/%m/%d"@ || pattern == "%Y"@ || pattern == "%y%m%d"@ || pattern
        == "%B %d, %Y"@
}

/// Asks `chrono::NaiveDate::from_ymd_opt` whether the day exists.
///
/// Trusted: the answer is `Some` exactly for the days `valid_ymd` admits,
/// which is what chrono documents (the day must exist, month and day must be
/// in range, the year within chrono's limits), and the date returned carries
/// the year, month and day that chrono's `Datelike` accessors report, which
/// are the ones given.
#[verifier::external_body]
fn checked_ymd(year: i32, month: u32, day: u32) -> (date: Option<CalendarDate>)
    ensures
        date is Some <==> valid_ymd(year as int, month as int, day as int),
        date matches Some(d) ==> d.year == year && d.month == month && d.day == day,
{
    chrono::NaiveDate::from_ymd_opt(year, month, day).map(|d| CalendarDate {
        year: chrono::Datelike::year(&d),
        month: chrono::Datelike::month(&d),
        day: chrono::Datelike::day(&d),
    })
}

/// Formats a date with `chrono::NaiveDate::format`.
///
/// Trusted: the text depends on the day and the pattern alone (chrono
/// writes numbers, and month names in English, whatever the locale of the
/// machine), so it is named by `formatted_date`. The patterns admitted are well-formed, for
/// which chrono's formatter does not fail.
#[verifier::external_body]
fn format_date(date: &CalendarDate, pattern: &str) -> (text: String)
    requires
        date.wf(),
        supported_pattern(pattern@),
    ensures
        text@ == formatted_date(date.year, date.month, date.day, pattern@),
{
    chrono::NaiveDate::from_ymd_opt(date.year, date.month, date.day)
        .unwrap_or_default()
        .format(pattern)
        .to_string()
}

impl CalendarDate {
    /// The date names a day that exists.
    pub closed spec fn wf(&self) -> bool {
        valid_ymd(self.year as int, self.month as int, self.day as int)
    }

    /// The year of the date.
    pub closed spec fn spec_year(&self) -> i32 {
        self.year
    }

    /// The month of the date, from 1.
    pub closed spec fn spec_month(&self) -> u32 {
        self.month
    }

    /// The day of the month, from 1.
    pub closed spec fn spec_day(&self) -> u32 {
        self.day
    }

    /// The text of the date under `pattern`.
    pub closed spec fn text(&self, pattern: Seq<char>) -> Seq<char> {
        formatted_date(self.year, self.month, self.day, pattern)
    }

    /// Makes a date from year, month and day, or `None` where no such day
    /// exists or the year is out of range.
    pub fn from_ymd_opt(year: i32, month: u32, day: u32) -> (date: Option<CalendarDate>)
        ensures
            date is Some <==> valid_ymd(year as int, month as int, day as int),
            date matches Some(d) ==> d.wf() && d.spec_year() == year && d.spec_month() == month
                && d.spec_day() == day,
    {
        checked_ymd(year, month, day)
    }

    #[verifier::when_used_as_spec(spec_year)]
    pub fn year(&self) -> (y: i32)
        ensures
            y == self.spec_year(),
    {
        self.year
    }

    #[verifier::when_used_as_spec(spec_month)]
    pub fn month(&self) -> (m: u32)
        ensures
            m == self.spec_month(),
    {
        self.month
    }

    #[verifier::when_used_as_spec(spec_day)]
    pub fn day(&self) -> (d: u32)
        ensures
            d == self.spec_day(),
    {
        self.day
    }

    /// Writes the date under one of the supported patterns.
    pub fn format(&self, pattern: &str) -> (text: String)
        requires
            self.wf(),
            supported_pattern(pattern@),
        ensures
            text@ == self.text(pattern@),
    {
        format_date(self, pattern)
    }

    /// A well-formed date is fixed by its year, month and day.
    pub proof fn lemma_same_fields_same_date(a: CalendarDate, b: CalendarDate)
        requires
            a.spec_year() == b.spec_year(),
            a.spec_month() == b.spec_month(),
            a.spec_day() == b.spec_day(),
        ensures
            a == b,
            forall|pattern: Seq<char>| a.text(pattern) == b.text(pattern),
    {
    }
}

} // verus!
