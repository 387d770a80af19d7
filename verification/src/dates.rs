//! Calendar days and the day ranges that the dated queries cover.
//!
//! A day is held as its number in the proleptic Gregorian calendar, where
//! day 1 is 1 January of year 1. That day is a Monday, so the day of the week
//! is a matter of the number modulo seven. Turning a number into a
//! year-month-day text, and a text into a number, is left to `chrono`.

use std::fmt::Write;
use vstd::prelude::*;

verus! {

/// A day of the week.
#[derive(Clone, Copy, Debug, PartialEq, Eq, Structural)]
pub enum Weekday {
    Mon,
    Tue,
    Wed,
    Thu,
    Fri,
    Sat,
    Sun,
}

impl Weekday {
    /// Days since Monday: 0 for Monday up to 6 for Sunday.
    pub open spec fn index(self) -> int {
        match self {
            Weekday::Mon => 0,
            Weekday::Tue => 1,
            Weekday::Wed => 2,
            Weekday::Thu => 3,
            Weekday::Fri => 4,
            Weekday::Sat => 5,
            Weekday::Sun => 6,
        }
    }

    /// Days since Monday, as `index` counts them.
    pub fn num_days_from_monday(&self) -> (n: u32)
        ensures
            n == self.index(),
    {
        match self {
            Weekday::Mon => 0,
            Weekday::Tue => 1,
            Weekday::Wed => 2,
            Weekday::Thu => 3,
            Weekday::Fri => 4,
            Weekday::Sat => 5,
            Weekday::Sun => 6,
        }
    }
}

/// Days since Monday of the day with number `day`.
pub open spec fn weekday_index(day: int) -> int {
    (day - 1) % 7
}

/// The day of the week of the day with number `day`.
pub open spec fn weekday_of(day: int) -> Weekday {
    let i = weekday_index(day);
    if i == 0 {
        Weekday::Mon
    } else if i == 1 {
        Weekday::Tue
    } else if i == 2 {
        Weekday::Wed
    } else if i == 3 {
        Weekday::Thu
    } else if i == 4 {
        Weekday::Fri
    } else if i == 5 {
        Weekday::Sat
    } else {
        Weekday::Sun
    }
}

/// A calendar day.
#[derive(Clone, Copy, Debug, PartialEq, Eq, Structural)]
pub struct Day {
    /// Number of the day, counted from 1 January of year 1 as day 1.
    pub days_from_ce: i32,
}

impl View for Day {
    type V = int;

    open spec fn view(&self) -> int {
        self.days_from_ce as int
    }
}

impl Day {
    /// The day of the week.
    pub fn weekday(&self) -> (w: Weekday)
        ensures
            w == weekday_of(self@),
            w.index() == weekday_index(self@),
    {
        // One less than the number, moved up by 2147483653, a multiple of 7,
        // so that the remainder is taken of a number that is not negative.
        let shifted: i64 = self.days_from_ce as i64 + 2147483652;
        let i: i64 = shifted % 7;
        if i == 0 {
            Weekday::Mon
        } else if i == 1 {
            Weekday::Tue
        } else if i == 2 {
            Weekday::Wed
        } else if i == 3 {
            Weekday::Thu
        } else if i == 4 {
            Weekday::Fri
        } else if i == 5 {
            Weekday::Sat
        } else {
            Weekday::Sun
        }
    }

    /// The day `days` later (earlier for a negative count), unless its number
    /// leaves the range of `i32`.
    pub fn plus_days(&self, days: i32) -> (r: Option<Day>)
        ensures
            r is Some <==> i32::MIN <= self@ + days <= i32::MAX,
            r matches Some(d) ==> d@ == self@ + days,
    {
        match self.days_from_ce.checked_add(days) {
            Some(n) => Some(Day { days_from_ce: n }),
            None => None,
        }
    }
}

/// Format of a day as eight digits: year, month, day.
pub const BASIC_FORMAT: &'static str = "%Y%m%d";

/// Format of a day as year, month and day with dashes between them.
pub const DASHED_FORMAT: &'static str = "%Y-%m-%d";

/// The dashed format followed by a space and the English name of the weekday.
pub const LABEL_FORMAT: &'static str = "%Y-%m-%d %A";

/// Format of a moment: the day with dashes, `T`, the time of day with
/// colons, and the offset from UTC.
pub const MOMENT_FORMAT: &'static str = "%Y-%m-%dT%H:%M:%S%z";

/// The text that `chrono` prints for the day with number `day` under
/// `format`, or `None` where `chrono` has no date with that number or cannot
/// print a date under that format.
pub uninterp spec fn day_text(day: int, format: Seq<char>) -> Option<Seq<char>>;

/// The number of the day that `chrono` reads out of `text` as a date in
/// the format `format`, or `None` where it reads none.
pub uninterp spec fn parsed_day(text: Seq<char>, format: Seq<char>) -> Option<int>;

/// The number of the day on which the moment falls, at its own offset from
/// UTC, that `chrono` reads out of `text` as a date, a time of day and an
/// offset in the format `format`; `None` where it reads none.
pub uninterp spec fn parsed_moment_day(text: Seq<char>, format: Seq<char>) -> Option<int>;

/// Calls `chrono::NaiveDate::from_num_days_from_ce_opt` and, on the date it
/// gives, `NaiveDate::format`, and writes out what that gives through its
/// `Display`. Nothing is claimed of the text but that it is the one `chrono`
/// prints for this day number and format, and that there is none exactly
/// when `chrono` has no date for the number or fails to print it.
#[verifier::external_body]
pub(crate) fn format_day(day: Day, format: &str) -> (text: Option<String>)
    ensures
        text is Some <==> day_text(day@, format@) is Some,
        text matches Some(t) ==> day_text(day@, format@) == Some(t@),
{
    let date = chrono::NaiveDate::from_num_days_from_ce_opt(day.days_from_ce)?;
    let mut text = String::new();
    write!(text, "{}", date.format(format)).ok()?;
    Some(text)
}

/// Calls `chrono::NaiveDate::parse_from_str` and hands out the number that
/// `Datelike::num_days_from_ce` gives the date read. Nothing is claimed of
/// which texts `chrono` accepts, nor of the day that it reads out of one.
#[verifier::external_body]
pub(crate) fn parse_day(text: &str, format: &str) -> (day: Option<Day>)
    ensures
        day is Some <==> parsed_day(text@, format@) is Some,
        day matches Some(d) ==> parsed_day(text@, format@) == Some(d@),
{
    let date = chrono::NaiveDate::parse_from_str(text, format).ok()?;
    Some(Day { days_from_ce: chrono::Datelike::num_days_from_ce(&date) })
}

/// Calls `chrono::DateTime::parse_from_str` and hands out the number that
/// `Datelike::num_days_from_ce` gives the moment read, which is that of the
/// day on which the moment falls at its own offset. Nothing is claimed of
/// which texts `chrono` accepts, nor of the day that it reads out of one.
#[verifier::external_body]
pub(crate) fn parse_moment(text: &str, format: &str) -> (day: Option<Day>)
    ensures
        day is Some <==> parsed_moment_day(text@, format@) is Some,
        day matches Some(d) ==> parsed_moment_day(text@, format@) == Some(d@),
{
    let moment = chrono::DateTime::parse_from_str(text, format).ok()?;
    Some(Day { days_from_ce: chrono::Datelike::num_days_from_ce(&moment) })
}

/// First day of the agenda's range when today is `today`: today itself on a
/// working day, the Monday that follows on a Saturday or a Sunday.
pub open spec fn agenda_start(today: int) -> int {
    if weekday_of(today) == Weekday::Sat {
        today + 2
    } else if weekday_of(today) == Weekday::Sun {
        today + 1
    } else {
        today
    }
}

/// Last day of the agenda's range: the Friday of the week of its first day.
pub open spec fn agenda_end(today: int) -> int {
    agenda_start(today) + (4 - weekday_index(agenda_start(today)))
}

/// The Monday of the week that holds `day`: `day` itself or the nearest
/// Monday before it.
pub open spec fn monday_of(day: int) -> int {
    day - weekday_index(day)
}

/// First day of the lessons' range: the Monday of the week that holds `today`.
pub open spec fn lessons_start(today: int) -> int {
    monday_of(today)
}

/// Last day of the lessons' range: five days after its first.
pub open spec fn lessons_end(today: int) -> int {
    lessons_start(today) + 5
}

/// First day of next week's range: the first Monday after `today`.
pub open spec fn next_week_start(today: int) -> int {
    today + (7 - weekday_index(today))
}

/// Last day of next week's range: five days after its first.
pub open spec fn next_week_end(today: int) -> int {
    next_week_start(today) + 5
}

/// Whether `day` is the number of a `Day`.
pub open spec fn is_day_number(day: int) -> bool {
    i32::MIN <= day <= i32::MAX
}

/// The range from `start` to `end` as a pair of eight-digit texts, where both
/// are day numbers for which `chrono` has a date.
pub open spec fn range_text(start: int, end: int) -> Option<(Seq<char>, Seq<char>)> {
    if is_day_number(start) && is_day_number(end) && day_text(start, BASIC_FORMAT@) is Some
        && day_text(end, BASIC_FORMAT@) is Some {
        Some((day_text(start, BASIC_FORMAT@)->0, day_text(end, BASIC_FORMAT@)->0))
    } else {
        None
    }
}

/// Whether `texts` is the view of `range`.
pub open spec fn is_range_text(
    range: Option<(String, String)>,
    texts: Option<(Seq<char>, Seq<char>)>,
) -> bool {
    match range {
        Some((start, end)) => texts == Some((start@, end@)),
        None => texts is None,
    }
}

/// The days from `today + to_start` to `today + to_start + span`, as texts.
fn range_from(today: Day, to_start: i32, span: i32) -> (range: Option<(String, String)>)
    requires
        -7 <= to_start <= 7,
        0 <= span <= 7,
    ensures
        is_range_text(range, range_text(today@ + to_start, today@ + to_start + span)),
{
    let start = today.plus_days(to_start)?;
    let end = start.plus_days(span)?;
    let start_text = format_day(start, BASIC_FORMAT)?;
    let end_text = format_day(end, BASIC_FORMAT)?;
    Some((start_text, end_text))
}

/// The agenda's range for today: from today, or from the coming Monday when
/// today falls on a weekend, to the Friday of that week.
pub fn get_current_agenda_week_date(today: Day) -> (range: Option<(String, String)>)
    ensures
        is_range_text(range, range_text(agenda_start(today@), agenda_end(today@))),
{
    let weekday = today.weekday();
    let (to_start, first) = match weekday {
        Weekday::Sat => (2i32, Weekday::Mon),
        Weekday::Sun => (1i32, Weekday::Mon),
        _ => (0i32, weekday),
    };
    let to_friday: i32 = 4 - first.num_days_from_monday() as i32;
    range_from(today, to_start, to_friday)
}

/// The lessons' range for today: from the Monday of this week to the day five
/// days after it.
pub fn get_current_lessons_week_date(today: Day) -> (range: Option<(String, String)>)
    ensures
        is_range_text(range, range_text(lessons_start(today@), lessons_end(today@))),
{
    let from_monday: i32 = today.weekday().num_days_from_monday() as i32;
    range_from(today, -from_monday, 5)
}

/// Next week's range for today: from the first Monday after today to the day
/// five days after it.
pub fn get_next_week_date(today: Day) -> (range: Option<(String, String)>)
    ensures
        is_range_text(range, range_text(next_week_start(today@), next_week_end(today@))),
{
    let to_monday: i32 = 7 - today.weekday().num_days_from_monday() as i32;
    range_from(today, to_monday, 5)
}

/// The agenda's range starts two days after a Saturday, one day after a
/// Sunday and on the day itself otherwise; it never starts on a weekend, and
/// it ends on the Friday of the week in which it starts.
pub proof fn lemma_agenda_range(today: int)
    ensures
        weekday_of(today) == Weekday::Sat ==> agenda_start(today) == today + 2,
        weekday_of(today) == Weekday::Sun ==> agenda_start(today) == today + 1,
        weekday_of(today) != Weekday::Sat && weekday_of(today) != Weekday::Sun ==> agenda_start(
            today,
        ) == today,
        weekday_index(agenda_start(today)) <= 4,
        weekday_of(agenda_end(today)) == Weekday::Fri,
        monday_of(agenda_end(today)) == monday_of(agenda_start(today)),
        agenda_start(today) <= agenda_end(today),
{
}

/// The Monday of a week is a Monday, and the week's days are that day and
/// the six that follow it.
pub proof fn lemma_monday_of(day: int)
    ensures
        weekday_of(monday_of(day)) == Weekday::Mon,
        monday_of(day) <= day < monday_of(day) + 7,
        forall|other: int|
            monday_of(day) <= other < monday_of(day) + 7 ==> #[trigger] monday_of(other)
                == monday_of(day),
{
}

/// The lessons' range starts on a Monday, on today or within the six days
/// before it, and ends five days after it starts, weekend or not.
pub proof fn lemma_lessons_range(today: int)
    ensures
        weekday_of(lessons_start(today)) == Weekday::Mon,
        lessons_start(today) <= today < lessons_start(today) + 7,
        lessons_end(today) == lessons_start(today) + 5,
{
}

/// Next week's range starts on a Monday after today and within seven days of
/// it, which is tomorrow when today is a Sunday, and ends five days after it
/// starts.
pub proof fn lemma_next_week_range(today: int)
    ensures
        weekday_of(next_week_start(today)) == Weekday::Mon,
        today < next_week_start(today) <= today + 7,
        weekday_of(today) == Weekday::Sun ==> next_week_start(today) == today + 1,
        next_week_end(today) == next_week_start(today) + 5,
{
}

} // verus!
