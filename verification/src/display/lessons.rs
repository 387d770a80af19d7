//! Lessons: the labels of their days, and the table.

use crate::dates::{parse_day, parsed_day, DASHED_FORMAT};
use crate::display::{
    cells4, day_label, draw, label_or_error, rendered_table, table_of, DisplayError, TableRow,
    NO_RECORDS,
};
use crate::response_types::{Lesson, Lessons};
use crate::sorting::{lemma_sorted_alike, sort_by_date, sorted_by_date, Dated};
use vstd::prelude::*;

verus! {

/// A lesson as it is shown.
#[derive(Debug)]
pub struct SimpleLesson {
    /// The day of the lesson, as the server gave it; not shown.
    pub time: String,
    pub date: String,
    pub desc: String,
    pub code: String,
    pub teacher: String,
}

/// What a `SimpleLesson` holds.
pub struct LessonRow {
    pub time: Seq<char>,
    pub date: Seq<char>,
    pub desc: Seq<char>,
    pub code: Seq<char>,
    pub teacher: Seq<char>,
}

impl View for SimpleLesson {
    type V = LessonRow;

    open spec fn view(&self) -> LessonRow {
        LessonRow {
            time: self.time@,
            date: self.date@,
            desc: self.desc@,
            code: self.code@,
            teacher: self.teacher@,
        }
    }
}

/// The row that shows `lesson`, whose date is the label of the lesson's
/// day. A lesson whose date names no day has no row.
pub open spec fn lesson_row(lesson: Lesson) -> Option<LessonRow> {
    match day_label(parsed_day(lesson.evtDate@, DASHED_FORMAT@)) {
        Some(label) => Some(
            LessonRow {
                time: lesson.evtDate@,
                date: label,
                desc: lesson.lessonArg@,
                code: lesson.evtCode@,
                teacher: lesson.authorName@,
            },
        ),
        None => None,
    }
}

impl SimpleLesson {
    /// The row that shows `lesson`.
    pub fn from_lesson(lesson: Lesson) -> (row: Result<Self, DisplayError>)
        ensures
            match row {
                Ok(shown) => lesson_row(lesson) == Some(shown@),
                Err(error) => {
                    &&& lesson_row(lesson) is None
                    &&& error matches DisplayError::BadDate { date }
                    &&& date@ == lesson.evtDate@
                },
            },
    {
        let day = lesson.evtDate;
        let label = label_or_error(parse_day(day.as_str(), DASHED_FORMAT), day.as_str())?;
        Ok(
            SimpleLesson {
                time: day,
                date: label,
                desc: lesson.lessonArg,
                code: lesson.evtCode,
                teacher: lesson.authorName,
            },
        )
    }
}

impl Dated for SimpleLesson {
    open spec fn date_text(&self) -> Seq<char> {
        self.time@
    }

    fn date(&self) -> (text: &str) {
        self.time.as_str()
    }
}

impl Dated for Lesson {
    open spec fn date_text(&self) -> Seq<char> {
        self.evtDate@
    }

    fn date(&self) -> (text: &str) {
        self.evtDate.as_str()
    }
}

/// The heading of the table of lessons.
pub open spec fn lesson_heading() -> Seq<Seq<char>> {
    seq!["date"@, "desc"@, "code"@, "teacher"@]
}

/// The cells of a row of the table of lessons.
pub open spec fn lesson_cells(row: LessonRow) -> Seq<Seq<char>> {
    seq![row.date, row.desc, row.code, row.teacher]
}

impl TableRow for SimpleLesson {
    open spec fn cells(&self) -> Seq<Seq<char>> {
        lesson_cells(self@)
    }

    fn cell_texts(&self) -> (texts: Vec<String>) {
        cells4(self.date.as_str(), self.desc.as_str(), self.code.as_str(), self.teacher.as_str())
    }
}

/// The table of the lessons `shown`, each of which has a row.
pub open spec fn lesson_table(shown: Seq<Lesson>) -> Seq<Seq<Seq<char>>> {
    Seq::new(
        shown.len() + 1,
        |i: int|
            if i == 0 {
                lesson_heading()
            } else {
                lesson_cells(lesson_row(shown[i - 1])->0)
            },
    )
}

/// The lessons as a table, in the order of their days.
///
/// The first lesson that has no row makes the whole an error. Without any
/// lesson the text says that there are no records.
pub fn display_lessons(lessons: Lessons, wrap_width: usize) -> (shown: Result<String, DisplayError>)
    ensures
        match shown {
            Ok(text) => {
                &&& forall|i: int|
                    0 <= i < lessons.lessons@.len() ==> lesson_row(
                        #[trigger] lessons.lessons@[i],
                    ) is Some
                &&& text@ == if lessons.lessons@.len() == 0 {
                    NO_RECORDS@
                } else {
                    rendered_table(
                        lesson_table(sorted_by_date(lessons.lessons@, false)),
                        wrap_width as int,
                    )
                }
            },
            Err(error) => exists|i: int|
                {
                    &&& 0 <= i < lessons.lessons@.len()
                    &&& lesson_row(#[trigger] lessons.lessons@[i]) is None
                    &&& forall|j: int| 0 <= j < i ==> lesson_row(#[trigger] lessons.lessons@[j]) is Some
                    &&& error matches DisplayError::BadDate { date }
                    &&& date@ == lessons.lessons@[i].evtDate@
                },
        },
{
    let ghost given = lessons.lessons@;
    let mut rows: Vec<SimpleLesson> = Vec::new();
    for lesson in it: lessons.lessons
        invariant
            it.seq() == given,
            rows@.len() == it.index(),
            forall|k: int|
                0 <= k < rows@.len() ==> lesson_row(#[trigger] given[k]) == Some(rows@[k]@),
    {
        match SimpleLesson::from_lesson(lesson) {
            Ok(row) => rows.push(row),
            Err(error) => {
                assert(lesson_row(given[it.index() as int]) is None);
                return Err(error);
            },
        }
    }
    if rows.len() == 0 {
        return Ok(String::from_str(NO_RECORDS));
    }
    proof {
        lemma_sorted_alike(
            rows@,
            given,
            false,
            |row: SimpleLesson, lesson: Lesson| lesson_row(lesson) == Some(row@),
        );
    }
    let rows = sort_by_date(rows, false);
    let text = draw(cells4("date", "desc", "code", "teacher"), &rows, wrap_width);
    assert(table_of(lesson_heading(), rows@) =~= lesson_table(sorted_by_date(given, false)));
    Ok(text)
}

} // verus!
