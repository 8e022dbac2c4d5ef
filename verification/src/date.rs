//! Calendar dates. A [`CalendarDate`] holds year, month and day as plain
//! numbers; parsing, printing and the clock come from the `chrono` crate.
//!
//! Every `CalendarDate` is a day that the calendar of `chrono` has: a date is
//! built only from numbers for which `NaiveDate::from_ymd_opt` gives a date,
//! or from a date that `chrono` itself handed out.

use chrono::Datelike;
use chrono::NaiveDate;
use chrono::Utc;
use vstd::prelude::*;

verus! {

/// The textual date format of invoice documents: year, month and day
/// separated by hyphens.
pub const ISO_DATE_FORMAT: &'static str = "%Y-%m-%d";

/// A day of the proleptic Gregorian calendar.
#[derive(Clone, Copy, Debug, PartialEq, Eq, Structural)]
pub struct CalendarDate {
    year: i32,
    month: u32,
    day: u32,
}

/// What `chrono` makes of `text` under the format string `format`: the date
/// it reads, or the message of its parse error.
pub uninterp spec fn date_parse(text: Seq<char>, format: Seq<char>) -> Result<
    CalendarDate,
    Seq<char>,
>;

/// The text that `chrono` prints for the day with the given year, month and
/// day of the month, or nothing where the calendar has no such day.
pub uninterp spec fn date_text(year: int, month: int, day: int) -> Option<Seq<char>>;

impl CalendarDate {
    /// Every date is a day that the calendar has.
    #[verifier::type_invariant]
    pub open spec fn in_calendar(self) -> bool {
        date_text(self.spec_year(), self.spec_month(), self.spec_day()) is Some
    }

    /// The year of the date.
    pub closed spec fn spec_year(self) -> int {
        self.year as int
    }

    /// The month of the date, from 1 to 12.
    pub closed spec fn spec_month(self) -> int {
        self.month as int
    }

    /// The day of the month, from 1.
    pub closed spec fn spec_day(self) -> int {
        self.day as int
    }

    /// Whether `self` falls on a later day than `other`.
    pub open spec fn spec_is_after(self, other: CalendarDate) -> bool {
        ||| self.spec_year() > other.spec_year()
        ||| (self.spec_year() == other.spec_year() && self.spec_month() > other.spec_month())
        ||| (self.spec_year() == other.spec_year() && self.spec_month() == other.spec_month()
            && self.spec_day() > other.spec_day())
    }

    /// The printed form of the date.
    pub open spec fn text(self) -> Seq<char> {
        date_text(self.spec_year(), self.spec_month(), self.spec_day())->0
    }

    /// The date with the given year, month and day of the month, or nothing
    /// where the calendar has no such day.
    pub fn from_ymd(year: i32, month: u32, day: u32) -> (date: Option<CalendarDate>)
        ensures
            date is Some <==> date_text(year as int, month as int, day as int) is Some,
            date matches Some(d) ==> d.spec_year() == year && d.spec_month() == month
                && d.spec_day() == day,
    {
        match format_date(year, month, day) {
            Some(_) => Some(CalendarDate { year, month, day }),
            None => None,
        }
    }

    /// The year of the date.
    pub fn year(&self) -> (year: i32)
        ensures
            year == self.spec_year(),
    {
        self.year
    }

    /// The month of the date.
    pub fn month(&self) -> (month: u32)
        ensures
            month == self.spec_month(),
    {
        self.month
    }

    /// The day of the month.
    pub fn day(&self) -> (day: u32)
        ensures
            day == self.spec_day(),
    {
        self.day
    }

    /// Whether `self` falls on a later day than `other`.
    pub fn is_after(&self, other: &CalendarDate) -> (later: bool)
        ensures
            later == self.spec_is_after(*other),
    {
        self.year > other.year || (self.year == other.year && (self.month > other.month || (
        self.month == other.month && self.day > other.day)))
    }

    /// Prints the date.
    pub fn to_text(&self) -> (s: String)
        ensures
            s@ == self.text(),
            self.in_calendar(),
    {
        proof {
            use_type_invariant(self);
        }
        match format_date(self.year, self.month, self.day) {
            Some(s) => s,
            // The calendar has this day, so it has a printed form.
            None => String::new(),
        }
    }

    /// Reads a date written as year, month and day separated by hyphens.
    pub fn parse(text: &str) -> (r: Result<CalendarDate, String>)
        ensures
            match r {
                Ok(d) => date_parse(text@, ISO_DATE_FORMAT@) == Ok::<CalendarDate, Seq<char>>(d),
                Err(e) => date_parse(text@, ISO_DATE_FORMAT@) == Err::<CalendarDate, Seq<char>>(e@),
            },
    {
        parse_date(text, ISO_DATE_FORMAT)
    }
}

/// Two dates with the same year, month and day are the same date.
pub proof fn lemma_date_parts(a: CalendarDate, b: CalendarDate)
    requires
        a.spec_year() == b.spec_year(),
        a.spec_month() == b.spec_month(),
        a.spec_day() == b.spec_day(),
    ensures
        a == b,
{
}

/// Of two different dates one falls after the other, and no date falls after
/// itself.
pub proof fn lemma_date_order(a: CalendarDate, b: CalendarDate)
    ensures
        !a.spec_is_after(a),
        a != b ==> (a.spec_is_after(b) || b.spec_is_after(a)),
        !(a.spec_is_after(b) && b.spec_is_after(a)),
{
    if !a.spec_is_after(b) && !b.spec_is_after(a) {
        lemma_date_parts(a, b);
    }
}

/// Calls `NaiveDate::parse_from_str` and hands back the year, month and day
/// of the date it read, or the text of its error. The outcome is named, not
/// described. A date that `chrono` hands out is a day of its calendar:
/// `NaiveDate::from_ymd_opt` gives a date for its year, month and day.
#[verifier::external_body]
pub(crate) fn parse_date(text: &str, format: &str) -> (r: Result<CalendarDate, String>)
    ensures
        match r {
            Ok(d) => date_parse(text@, format@) == Ok::<CalendarDate, Seq<char>>(d)
                && d.in_calendar(),
            Err(e) => date_parse(text@, format@) == Err::<CalendarDate, Seq<char>>(e@),
        },
{
    match NaiveDate::parse_from_str(text, format) {
        Ok(d) => Ok(CalendarDate { year: d.year(), month: d.month(), day: d.day() }),
        Err(e) => Err(e.to_string()),
    }
}

/// Calls `NaiveDate::from_ymd_opt`, which returns nothing for a day that the
/// calendar lacks, and `NaiveDate::to_string` on the date it built. The text
/// is named, not described.
#[verifier::external_body]
pub(crate) fn format_date(year: i32, month: u32, day: u32) -> (text: Option<String>)
    ensures
        match text {
            Some(s) => date_text(year as int, month as int, day as int) == Some(s@),
            None => date_text(year as int, month as int, day as int) is None,
        },
{
    match NaiveDate::from_ymd_opt(year, month, day) {
        Some(d) => Some(d.to_string()),
        None => None,
    }
}

/// Calls `Utc::now` and hands back the year, month and day of the current
/// date in UTC. Of the result it is claimed only that it is a day of the
/// calendar, as every date that `chrono` hands out is.
#[verifier::external_body]
pub(crate) fn today() -> (date: CalendarDate)
    ensures
        date.in_calendar(),
{
    let d = Utc::now().date_naive();
    CalendarDate { year: d.year(), month: d.month(), day: d.day() }
}

} // verus!
