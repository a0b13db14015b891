//! Calendar dates as the builders need them: read from text, ordered, and
//! written back as text.
//!
//! Reading and writing follow a format description of the `time` crate and
//! are done by that crate. The results are named here; Verus takes on
//! trust that each call gives the result of that name.

use vstd::prelude::*;

verus! {

/// The format description of the dates in configuration files and in the
/// index of posts.
pub const DATE_FORMAT: &'static str = "[year]-[month]-[day]";

/// What `time::Date::parse` gives for `text` under the version 1 format
/// description `format`, as year, month (1 to 12) and day of the month;
/// `None` where the description is not valid or the text does not hold one
/// date in that format.
pub uninterp spec fn parsed_date(text: Seq<char>, format: Seq<char>) -> Option<(int, int, int)>;

/// What `time::Date::format` gives for the date of the given year, month
/// and day under the version 1 format description `format`; `None` where
/// the description is not valid, where there is no such date, or where the
/// date cannot be written in that format.
pub uninterp spec fn formatted_date(year: int, month: int, day: int, format: Seq<char>) -> Option<
    Seq<char>,
>;

/// `time::Date::parse`, on a format description that
/// `time::format_description::parse_borrowed` reads from `format`. The
/// components of the date are those that `Date::year`, `Date::month` and
/// `Date::day` give.
#[verifier::external_body]
fn parse_date(text: &str, format: &str) -> (date: Option<(i32, u8, u8)>)
    ensures
        date is Some <==> parsed_date(text@, format@) is Some,
        date matches Some(d) ==> parsed_date(text@, format@) == Some(
            (d.0 as int, d.1 as int, d.2 as int),
        ),
{
    let items = time::format_description::parse_borrowed::<1>(format).ok()?;
    let date = time::Date::parse(text, &items).ok()?;
    Some((date.year(), u8::from(date.month()), date.day()))
}

/// `time::Date::format`, on the date that `time::Date::from_calendar_date`
/// makes of the components and on a format description that
/// `time::format_description::parse_borrowed` reads from `format`.
#[verifier::external_body]
fn format_date(year: i32, month: u8, day: u8, format: &str) -> (text: Option<String>)
    ensures
        text is Some <==> formatted_date(year as int, month as int, day as int, format@) is Some,
        text matches Some(t) ==> formatted_date(year as int, month as int, day as int, format@)
            == Some(t@),
{
    let items = time::format_description::parse_borrowed::<1>(format).ok()?;
    let month = time::Month::try_from(month).ok()?;
    let date = time::Date::from_calendar_date(year, month, day).ok()?;
    date.format(&items).ok()
}

/// A date of the calendar: year, month and day of the month.
#[derive(Debug, Clone, Copy, PartialEq, Eq)]
pub struct CalendarDate {
    pub year: i32,
    pub month: u8,
    pub day: u8,
}

impl CalendarDate {
    /// Whether `self` comes later in the calendar than `other`: by year,
    /// then by month, then by day.
    pub open spec fn later_than(self, other: CalendarDate) -> bool {
        ||| self.year > other.year
        ||| self.year == other.year && self.month > other.month
        ||| self.year == other.year && self.month == other.month && self.day > other.day
    }

    /// One integer that orders dates as the calendar does.
    pub open spec fn key(self) -> int {
        (self.year * 256 + self.month) * 256 + self.day
    }

    /// The date that `text` holds in the format [`DATE_FORMAT`], if it
    /// holds one.
    pub open spec fn parsed(text: Seq<char>) -> Option<CalendarDate> {
        match parsed_date(text, DATE_FORMAT@) {
            Some((year, month, day)) => Some(
                CalendarDate { year: year as i32, month: month as u8, day: day as u8 },
            ),
            None => None,
        }
    }

    /// The date written in the format [`DATE_FORMAT`], if it can be.
    pub open spec fn text(self) -> Option<Seq<char>> {
        formatted_date(self.year as int, self.month as int, self.day as int, DATE_FORMAT@)
    }

    /// The key orders dates as the calendar does, and tells them apart.
    pub proof fn lemma_key_orders(self, other: CalendarDate)
        ensures
            self.later_than(other) <==> self.key() > other.key(),
            self.key() == other.key() <==> self == other,
    {
    }

    /// Whether `self` comes later in the calendar than `other`.
    pub fn is_later_than(&self, other: &CalendarDate) -> (later: bool)
        ensures
            later == self.later_than(*other),
            later == (self.key() > other.key()),
    {
        proof {
            self.lemma_key_orders(*other);
        }
        self.year > other.year || (self.year == other.year && (self.month > other.month || (
        self.month == other.month && self.day > other.day)))
    }

    /// Reads a date in the format [`DATE_FORMAT`].
    pub fn parse(text: &str) -> (date: Option<CalendarDate>)
        ensures
            date == CalendarDate::parsed(text@),
    {
        match parse_date(text, DATE_FORMAT) {
            Some((year, month, day)) => Some(CalendarDate { year, month, day }),
            None => None,
        }
    }

    /// Writes the date in the format [`DATE_FORMAT`].
    pub fn format(&self) -> (text: Option<String>)
        ensures
            text is Some <==> self.text() is Some,
            text matches Some(t) ==> self.text() == Some(t@),
    {
        format_date(self.year, self.month, self.day, DATE_FORMAT)
    }
}

} // verus!
