//! From the server's answers to the tables that the user sees.
//!
//! Each answer is projected to rows of a few columns, the rows are put in
//! the order of their dates, and the table is drawn by `tabled`. What is
//! common to the four kinds of answer stands here; each kind has a module of
//! its own.

pub mod absences;
pub mod agenda;
pub mod grades;
pub mod lessons;

pub use self::absences::{display_absences, AbsenceRow, SimpleAbsence};
pub use self::agenda::{display_agenda, AgendaRow, SimpleAgenda};
pub use self::grades::{
    display_grades, narrow, same_subject, sort_date_grade, subject_name, GradeRow, SimpleGrade,
};
pub use self::lessons::{display_lessons, LessonRow, SimpleLesson};

use crate::dates::{day_text, format_day, Day, LABEL_FORMAT};
use tabled::builder::Builder;
use tabled::settings::object::Rows;
use tabled::settings::{Alignment, Modify, Style, Width};
use vstd::prelude::*;

verus! {

/// What is shown in place of a table that would have no rows.
pub const NO_RECORDS: &'static str = "No records";

/// The text that `tabled` draws for the table `records`, whose first row is
/// the heading: in the modern style, the heading centred, and the text of
/// the cells below it wrapped at `wrap_width` characters without breaking
/// words.
pub uninterp spec fn rendered_table(records: Seq<Seq<Seq<char>>>, wrap_width: int) -> Seq<char>;

/// Whether `records` is a table: a heading and rows of as many cells.
pub open spec fn is_table(records: Seq<Seq<Seq<char>>>) -> bool {
    &&& records.len() > 0
    &&& forall|i: int| 0 <= i < records.len() ==> (#[trigger] records[i]).len() == records[0].len()
}

/// Builds a `tabled::Table` out of `records` through `tabled::builder::Builder`,
/// sets the style `Style::modern`, centres the first row, wraps the others at
/// `wrap_width` with `Width::wrap` keeping words, and prints it. Nothing is
/// claimed of the text but that it is the one `tabled` draws for these
/// records and this width.
#[verifier::external_body]
fn render_table(records: Vec<Vec<String>>, wrap_width: usize) -> (text: String)
    requires
        is_table(records.deep_view()),
    ensures
        text@ == rendered_table(records.deep_view(), wrap_width as int),
{
    let mut table = Builder::from(records).build();
    table.with(Style::modern()).with(Modify::new(Rows::first()).with(Alignment::center())).with(
        Modify::new(Rows::new(1..)).with(Width::wrap(wrap_width).keep_words()),
    );
    table.to_string()
}

/// A row of a table.
pub trait TableRow {
    /// The texts of the row's cells.
    spec fn cells(&self) -> Seq<Seq<char>>;

    /// The texts of the row's cells.
    fn cell_texts(&self) -> (texts: Vec<String>)
        ensures
            texts.deep_view() == self.cells(),
    ;
}

/// The table with the heading `heading` and a row for each of `rows`.
pub open spec fn table_of<T: TableRow>(heading: Seq<Seq<char>>, rows: Seq<T>) -> Seq<
    Seq<Seq<char>>,
> {
    Seq::new(
        rows.len() + 1,
        |i: int|
            if i == 0 {
                heading
            } else {
                rows[i - 1].cells()
            },
    )
}

/// The text of the table with the heading `heading` and a row for each of
/// `rows`.
pub(crate) fn draw<T: TableRow>(heading: Vec<String>, rows: &Vec<T>, wrap_width: usize) -> (text: String)
    requires
        forall|i: int|
            0 <= i < rows@.len() ==> (#[trigger] rows@[i]).cells().len()
                == heading.deep_view().len(),
    ensures
        text@ == rendered_table(table_of(heading.deep_view(), rows@), wrap_width as int),
{
    let ghost top = heading.deep_view();
    let mut records: Vec<Vec<String>> = Vec::new();
    records.push(heading);
    let mut i: usize = 0;
    while i < rows.len()
        invariant
            i <= rows@.len(),
            records@.len() == i + 1,
            records@[0].deep_view() == top,
            forall|k: int| 1 <= k <= i ==> (#[trigger] records@[k]).deep_view() == rows@[k - 1].cells(),
        decreases rows@.len() - i,
    {
        records.push(rows[i].cell_texts());
        i = i + 1;
    }
    proof {
        let table = table_of(top, rows@);
        let drawn = records.deep_view();
        assert(drawn.len() == table.len());
        assert forall|k: int| 0 <= k < table.len() implies drawn[k] == table[k] by {
            assert(drawn[k] == records@[k].deep_view());
        }
        assert(drawn =~= table);
        assert forall|k: int| 0 <= k < drawn.len() implies (#[trigger] drawn[k]).len()
            == drawn[0].len() by {
            if k > 0 {
                assert(rows@[k - 1].cells().len() == top.len());
            }
        }
    }
    render_table(records, wrap_width)
}

/// A row of four cells.
pub(crate) fn cells4(a: &str, b: &str, c: &str, d: &str) -> (cells: Vec<String>)
    ensures
        cells.deep_view() == seq![a@, b@, c@, d@],
{
    let cells = vec![
        String::from_str(a),
        String::from_str(b),
        String::from_str(c),
        String::from_str(d),
    ];
    assert(cells.deep_view() =~= seq![a@, b@, c@, d@]);
    cells
}

/// A row of five cells.
pub(crate) fn cells5(a: &str, b: &str, c: &str, d: &str, e: &str) -> (cells: Vec<String>)
    ensures
        cells.deep_view() == seq![a@, b@, c@, d@, e@],
{
    let cells = vec![
        String::from_str(a),
        String::from_str(b),
        String::from_str(c),
        String::from_str(d),
        String::from_str(e),
    ];
    assert(cells.deep_view() =~= seq![a@, b@, c@, d@, e@]);
    cells
}

/// Why an answer cannot be shown.
#[derive(Debug)]
pub enum DisplayError {
    /// The absence with this `evtId` gives a reason for its justification
    /// and no code for that reason.
    NoReasonCode { event: u32 },
    /// An entry carries this text where its day is expected.
    BadDate { date: String },
}

/// The label of a day in a table: the day with dashes, a space, and the
/// name of its weekday.
pub open spec fn day_label(day: Option<int>) -> Option<Seq<char>> {
    match day {
        Some(number) => day_text(number, LABEL_FORMAT@),
        None => None,
    }
}

/// The label of `day`, or the error that reports `text` as no day.
pub(crate) fn label_or_error(day: Option<Day>, text: &str) -> (label: Result<String, DisplayError>)
    ensures
        match label {
            Ok(shown) => day matches Some(d) && day_text(d@, LABEL_FORMAT@) == Some(shown@),
            Err(error) => {
                &&& day matches Some(d) ==> day_text(d@, LABEL_FORMAT@) is None
                &&& error matches DisplayError::BadDate { date }
                &&& date@ == text@
            },
        },
{
    let label = match day {
        Some(d) => format_day(d, LABEL_FORMAT),
        None => None,
    };
    match label {
        Some(shown) => Ok(shown),
        None => Err(DisplayError::BadDate { date: String::from_str(text) }),
    }
}

} // verus!
