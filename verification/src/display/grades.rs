//! Grades: the names of subjects, the choice of a subject, and the table.

use crate::display::{cells5, draw, rendered_table, table_of, TableRow, NO_RECORDS};
use crate::input::GradeSettings;
use crate::response_types::{Grade, Grades};
use crate::sorting::{lemma_sorted_alike, sort_by_date, sorted_by_date, Dated};
use crate::text::{
    ends_with, has_suffix, lowercased, optional_text, replace, replaced, same_text, to_lowercase,
    trim, trimmed,
};
use vstd::prelude::*;

verus! {

/// The section's name that the school appends to the names of subjects.
pub const SECTION: &'static str = "sez. INFORMATICA";

/// The name under which a subject is shown. The section's name, where the
/// description ends with it, is taken out wherever it occurs; four long
/// descriptions have a short name; any other stays as it is.
pub open spec fn short_subject(description: Seq<char>) -> Seq<char> {
    let plain = if has_suffix(description, SECTION@) {
        replaced(description, SECTION@, ""@)
    } else {
        description
    };
    if plain == "LINGUA E LETTERATURA ITALIANA"@ {
        "ITALIANO"@
    } else if plain == "STORIA,CITTADINANZA E COSTITUZIONE"@ {
        "STORIA"@
    } else if plain == "SCIENZE MOTORIE E SPORTIVE"@ {
        "MOTORIA"@
    } else if plain
        == "TECNOLOGIE E PROGETTAZIONE DI SISTEMI INFORMATICI E DI TELECOMUNICAZIONI "@ {
        "TPSIT"@
    } else {
        plain
    }
}

/// The name under which a subject is shown.
pub fn subject_name(description: &str) -> (name: String)
    ensures
        name@ == short_subject(description@),
{
    let plain = if ends_with(description, SECTION) {
        replace(description, SECTION, "")
    } else {
        String::from_str(description)
    };
    if same_text(plain.as_str(), "LINGUA E LETTERATURA ITALIANA") {
        String::from_str("ITALIANO")
    } else if same_text(plain.as_str(), "STORIA,CITTADINANZA E COSTITUZIONE") {
        String::from_str("STORIA")
    } else if same_text(plain.as_str(), "SCIENZE MOTORIE E SPORTIVE") {
        String::from_str("MOTORIA")
    } else if same_text(
        plain.as_str(),
        "TECNOLOGIE E PROGETTAZIONE DI SISTEMI INFORMATICI E DI TELECOMUNICAZIONI ",
    ) {
        String::from_str("TPSIT")
    } else {
        plain
    }
}

/// A grade as it is shown.
#[derive(Debug)]
pub struct SimpleGrade {
    pub subject: String,
    pub date: String,
    /// The grade's value, as decimal text.
    pub grade: String,
    pub subject_type: String,
    /// The grade's weight, as decimal text.
    pub weight: String,
}

/// What a `SimpleGrade` holds.
pub struct GradeRow {
    pub subject: Seq<char>,
    pub date: Seq<char>,
    pub grade: Seq<char>,
    pub subject_type: Seq<char>,
    pub weight: Seq<char>,
}

impl View for SimpleGrade {
    type V = GradeRow;

    open spec fn view(&self) -> GradeRow {
        GradeRow {
            subject: self.subject@,
            date: self.date@,
            grade: self.grade@,
            subject_type: self.subject_type@,
            weight: self.weight@,
        }
    }
}

/// The row that shows `grade`.
pub open spec fn grade_row(grade: Grade) -> GradeRow {
    GradeRow {
        subject: short_subject(grade.subjectDesc@),
        date: grade.evtDate@,
        grade: grade.decimalValue@,
        subject_type: grade.componentDesc@,
        weight: grade.weightFactor@,
    }
}

impl SimpleGrade {
    /// The row that shows `grade`.
    pub fn from_grade(grade: Grade) -> (row: Self)
        ensures
            row@ == grade_row(grade),
    {
        SimpleGrade {
            subject: subject_name(grade.subjectDesc.as_str()),
            date: grade.evtDate,
            grade: grade.decimalValue,
            subject_type: grade.componentDesc,
            weight: grade.weightFactor,
        }
    }
}

impl Dated for SimpleGrade {
    open spec fn date_text(&self) -> Seq<char> {
        self.date@
    }

    fn date(&self) -> (text: &str) {
        self.date.as_str()
    }
}

impl Dated for Grade {
    open spec fn date_text(&self) -> Seq<char> {
        self.evtDate@
    }

    fn date(&self) -> (text: &str) {
        self.evtDate.as_str()
    }
}

/// Puts the rows in the order of their dates, from the earliest or, with
/// `latest_first`, from the latest.
pub fn sort_date_grade(grades: Vec<SimpleGrade>, latest_first: bool) -> (sorted: Vec<SimpleGrade>)
    ensures
        sorted@ == sorted_by_date(grades@, latest_first),
{
    sort_by_date(grades, latest_first)
}

/// The form in which names of subjects are compared: in lowercase, without
/// white space at either end.
pub open spec fn subject_key(name: Seq<char>) -> Seq<char> {
    trimmed(lowercased(name))
}

/// Whether two names of subjects are the same but for case and for white
/// space at their ends.
pub open spec fn names_agree(a: Seq<char>, b: Seq<char>) -> bool {
    subject_key(a) == subject_key(b)
}

/// Whether two names of subjects are the same but for case and for white
/// space at their ends.
pub fn same_subject(a: &str, b: &str) -> (same: bool)
    ensures
        same == names_agree(a@, b@),
{
    let x = to_lowercase(a);
    let y = to_lowercase(b);
    same_text(trim(x.as_str()), trim(y.as_str()))
}

/// The test that a grade's subject, as it is shown, agrees with `name`.
pub open spec fn in_subject(name: Seq<char>) -> spec_fn(Grade) -> bool {
    |grade: Grade| names_agree(short_subject(grade.subjectDesc@), name)
}

/// The grades of `grades` whose subject, as it is shown, agrees with `name`;
/// in their order.
pub open spec fn narrowed(grades: Seq<Grade>, name: Seq<char>) -> Seq<Grade> {
    grades.filter(in_subject(name))
}

/// The grades of `grades` in the subject `name`.
pub fn narrow(grades: Vec<Grade>, name: &str) -> (kept: Vec<Grade>)
    ensures
        kept@ == narrowed(grades@, name@),
{
    let mut kept: Vec<Grade> = Vec::new();
    let ghost all = grades@;
    assert(all.subrange(0, 0).filter(in_subject(name@)) == Seq::<Grade>::empty()) by {
        reveal(Seq::filter);
    }
    for grade in it: grades
        invariant
            it.seq() == all,
            kept@ == all.subrange(0, it.index() as int).filter(in_subject(name@)),
    {
        proof {
            let seen = all.subrange(0, it.index() as int);
            assert(all.subrange(0, it.index() + 1) == seen.push(grade));
            seen.lemma_filter_push(grade, in_subject(name@));
        }
        let shown = subject_name(grade.subjectDesc.as_str());
        if same_subject(shown.as_str(), name) {
            kept.push(grade);
        }
    }
    assert(all.subrange(0, all.len() as int) == all);
    kept
}

/// Both names are compared in the same form, so that agreement does not
/// depend on which of them is the subject and which the name asked for, and
/// names that agree with one name agree with each other.
pub proof fn lemma_names_agree_alike(a: Seq<char>, b: Seq<char>, c: Seq<char>)
    ensures
        names_agree(a, a),
        names_agree(a, b) == names_agree(b, a),
        names_agree(a, b) && names_agree(b, c) ==> names_agree(a, c),
        names_agree(a, b) == (trimmed(lowercased(a)) == trimmed(lowercased(b))),
{
}

/// Narrowing takes no notice of case nor of white space at the ends of the
/// name asked for: two names that agree choose the same grades.
pub proof fn lemma_narrowed_by_agreeing_names(grades: Seq<Grade>, a: Seq<char>, b: Seq<char>)
    requires
        names_agree(a, b),
    ensures
        narrowed(grades, a) == narrowed(grades, b),
{
    assert(in_subject(a) =~= in_subject(b));
}

/// Narrowing keeps the grades whose subject agrees with the name, drops the
/// others, and leaves those it keeps in their order: to narrow what two
/// sequences make together is to narrow each.
pub proof fn lemma_narrowed_is_the_choice(grades: Seq<Grade>, more: Seq<Grade>, name: Seq<char>)
    ensures
        forall|i: int|
            0 <= i < narrowed(grades, name).len() ==> names_agree(
                short_subject((#[trigger] narrowed(grades, name)[i]).subjectDesc@),
                name,
            ),
        forall|i: int|
            0 <= i < grades.len() && names_agree(short_subject(grades[i].subjectDesc@), name)
                ==> narrowed(grades, name).contains(#[trigger] grades[i]),
        narrowed(grades + more, name) == narrowed(grades, name) + narrowed(more, name),
{
    broadcast use vstd::seq_lib::group_filter_ensures;

    Seq::filter_distributes_over_add(grades, more, in_subject(name));
    assert forall|i: int|
        0 <= i < grades.len() && names_agree(
            short_subject(grades[i].subjectDesc@),
            name,
        ) implies narrowed(grades, name).contains(#[trigger] grades[i]) by {
        assert(in_subject(name)(grades[i]));
        grades.lemma_filter_contains(in_subject(name), i);
    }
    assert forall|i: int| 0 <= i < narrowed(grades, name).len() implies names_agree(
        short_subject((#[trigger] narrowed(grades, name)[i]).subjectDesc@),
        name,
    ) by {
        grades.lemma_filter_pred(in_subject(name), i);
    }
}

/// The grades that are shown, in the order in which they are shown: those
/// in the subject `name`, or all where no subject is named, by their dates.
pub open spec fn shown_grades(grades: Seq<Grade>, name: Option<Seq<char>>, latest_first: bool) -> Seq<
    Grade,
> {
    sorted_by_date(
        match name {
            Some(subject) => narrowed(grades, subject),
            None => grades,
        },
        latest_first,
    )
}

/// The heading of the table of grades.
pub open spec fn grade_heading() -> Seq<Seq<char>> {
    seq!["subject"@, "date"@, "grade"@, "subject_type"@, "weight"@]
}

/// The cells of a row of the table of grades.
pub open spec fn grade_cells(row: GradeRow) -> Seq<Seq<char>> {
    seq![row.subject, row.date, row.grade, row.subject_type, row.weight]
}

impl TableRow for SimpleGrade {
    open spec fn cells(&self) -> Seq<Seq<char>> {
        grade_cells(self@)
    }

    fn cell_texts(&self) -> (texts: Vec<String>) {
        cells5(
            self.subject.as_str(),
            self.date.as_str(),
            self.grade.as_str(),
            self.subject_type.as_str(),
            self.weight.as_str(),
        )
    }
}

/// The table of the grades `shown`: the heading, then a row for each.
pub open spec fn grade_table(shown: Seq<Grade>) -> Seq<Seq<Seq<char>>> {
    Seq::new(
        shown.len() + 1,
        |i: int|
            if i == 0 {
                grade_heading()
            } else {
                grade_cells(grade_row(shown[i - 1]))
            },
    )
}

/// The grades as a table, and the rows of that table.
///
/// Without any grade the text says that there are no records. Otherwise the
/// grades are narrowed to the subject that `grade_settings` names, if it
/// names one, and put in the order of their dates, from the latest with
/// `desc_date`; the table has a row for each of them, which may be none.
pub fn display_grades(grades: Grades, grade_settings: GradeSettings, wrap_width: usize) -> (shown: (
    String,
    Vec<SimpleGrade>,
))
    ensures
        grades.grades@.len() == 0 ==> shown.0@ == NO_RECORDS@ && shown.1@.len() == 0,
        grades.grades@.len() > 0 ==> ({
            let wanted = shown_grades(
                grades.grades@,
                optional_text(grade_settings.name),
                grade_settings.settings.desc_date,
            );
            &&& shown.1@.len() == wanted.len()
            &&& forall|i: int| 0 <= i < wanted.len() ==> shown.1@[i]@ == grade_row(wanted[i])
            &&& shown.0@ == rendered_table(grade_table(wanted), wrap_width as int)
        }),
{
    if grades.grades.len() == 0 {
        return (String::from_str(NO_RECORDS), Vec::new());
    }
    let latest_first = grade_settings.settings.desc_date;
    let kept = match &grade_settings.name {
        Some(name) => narrow(grades.grades, name.as_str()),
        None => grades.grades,
    };
    let ghost kept_grades = kept@;
    let ghost wanted = sorted_by_date(kept_grades, latest_first);
    let mut rows: Vec<SimpleGrade> = Vec::new();
    for grade in it: kept
        invariant
            it.seq() == kept_grades,
            rows@.len() == it.index(),
            forall|k: int| 0 <= k < rows@.len() ==> rows@[k]@ == grade_row(kept_grades[k]),
    {
        rows.push(SimpleGrade::from_grade(grade));
    }
    proof {
        lemma_sorted_alike(
            rows@,
            kept_grades,
            latest_first,
            |row: SimpleGrade, grade: Grade| row@ == grade_row(grade),
        );
    }
    let rows = sort_date_grade(rows, latest_first);
    let text = draw(cells5("subject", "date", "grade", "subject_type", "weight"), &rows, wrap_width);
    assert(table_of(grade_heading(), rows@) =~= grade_table(wanted));
    (text, rows)
}

} // verus!
