//! What the user chose on the command line, checked and ready for use.

use crate::api::NEXT_WEEK;
use crate::dates::{day_text, format_day, parse_day, parsed_day, DASHED_FORMAT};
use crate::text::{replace, replaced, same_text};
use vstd::prelude::*;

verus! {

/// Choices that every command shares.
#[derive(Debug)]
pub struct Settings {
    /// Whether rows are shown from the latest date to the earliest.
    pub desc_date: bool,
}

impl Settings {
    pub fn new(desc_date: bool) -> (settings: Self)
        ensures
            settings.desc_date == desc_date,
    {
        Settings { desc_date }
    }
}

/// Choices for showing grades.
#[derive(Debug)]
pub struct GradeSettings {
    pub settings: Settings,
    /// The subject to which the grades are narrowed, if any.
    pub name: Option<String>,
}

impl GradeSettings {
    pub fn new(settings: Settings, name: Option<String>) -> (chosen: Self)
        ensures
            chosen.settings == settings,
            chosen.name == name,
    {
        GradeSettings { settings, name }
    }
}

/// Choices for showing the agenda or the lessons.
#[derive(Debug)]
pub struct AgendaSettings {
    pub settings: Settings,
    /// The day asked for, as eight digits, or `nextweek`; `None` asks for
    /// the current range.
    pub date: Option<String>,
}

/// A date that the user gave and that is no date in the form `YYYY-MM-DD`.
#[derive(Debug)]
pub struct InvalidDate {
    /// The text that was given.
    pub date: String,
}

impl InvalidDate {
    /// What to tell the user.
    pub fn message(&self) -> (hint: String)
        ensures
            hint@ == "Invalid date format, please follow ISO 8601 standard format(YYYY-MM-DD)"@,
    {
        String::from_str("Invalid date format, please follow ISO 8601 standard format(YYYY-MM-DD)")
    }
}

/// The form in which the date `text` goes into a request: the day that
/// `text` names, printed with dashes, without the dashes. `None` where
/// `text` names no day.
pub open spec fn compact_date(text: Seq<char>) -> Option<Seq<char>> {
    match parsed_day(text, DASHED_FORMAT@) {
        Some(day) => match day_text(day, DASHED_FORMAT@) {
            Some(dashed) => Some(replaced(dashed, "-"@, ""@)),
            None => None,
        },
        None => None,
    }
}

impl AgendaSettings {
    /// Checks the date that the user gave. `nextweek` is kept as it is; any
    /// other text must name a day as `YYYY-MM-DD` and is kept in the form of
    /// `compact_date`; no date stays no date.
    pub fn new(settings: Settings, date: Option<String>) -> (chosen: Result<Self, InvalidDate>)
        ensures
            match date {
                None => chosen matches Ok(c) && c.settings == settings && c.date is None,
                Some(given) => if given@ == NEXT_WEEK@ {
                    chosen matches Ok(c) && c.settings == settings && c.date == Some(given)
                } else {
                    match compact_date(given@) {
                        Some(compact) => {
                            &&& chosen matches Ok(c)
                            &&& c.settings == settings
                            &&& c.date matches Some(kept)
                            &&& kept@ == compact
                        },
                        None => chosen matches Err(e) && e.date == given,
                    }
                },
            },
    {
        let given = match date {
            None => {
                return Ok(AgendaSettings { settings, date: None });
            },
            Some(given) => given,
        };
        if same_text(given.as_str(), NEXT_WEEK) {
            return Ok(AgendaSettings { settings, date: Some(given) });
        }
        let day = match parse_day(given.as_str(), DASHED_FORMAT) {
            Some(day) => day,
            None => {
                return Err(InvalidDate { date: given });
            },
        };
        match format_day(day, DASHED_FORMAT) {
            Some(dashed) => Ok(
                AgendaSettings { settings, date: Some(replace(dashed.as_str(), "-", "")) },
            ),
            None => Err(InvalidDate { date: given }),
        }
    }
}

} // verus!
