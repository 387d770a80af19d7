//! Absences: the words for their kinds, and the table.

use crate::display::{cells5, draw, rendered_table, table_of, DisplayError, TableRow, NO_RECORDS};
use crate::response_types::{Absence, Absences};
use crate::text::same_text;
use vstd::prelude::*;

verus! {

/// An absence as it is shown.
#[derive(Debug)]
pub struct SimpleAbsence {
    pub id: String,
    pub date: String,
    pub justified: bool,
    pub reason: String,
    pub code: String,
}

/// What a `SimpleAbsence` holds.
pub struct AbsenceRow {
    pub id: Seq<char>,
    pub date: Seq<char>,
    pub justified: bool,
    pub reason: Seq<char>,
    pub code: Seq<char>,
}

impl View for SimpleAbsence {
    type V = AbsenceRow;

    open spec fn view(&self) -> AbsenceRow {
        AbsenceRow {
            id: self.id@,
            date: self.date@,
            justified: self.justified,
            reason: self.reason@,
            code: self.code@,
        }
    }
}

/// The word for a kind of absence; a code without a word stands for itself.
pub open spec fn absence_kind(code: Seq<char>) -> Seq<char> {
    if code == "ABA0"@ {
        "Assenza"@
    } else if code == "ABR0"@ {
        "Ritardo"@
    } else if code == "ABR1"@ {
        "R. Breve"@
    } else {
        code
    }
}

/// The row that shows `absence`. An absence without a reason shows `N/A`
/// for the reason and for its code; one with a reason and without a code
/// has no row.
pub open spec fn absence_row(absence: Absence) -> Option<AbsenceRow> {
    let (reason, code) = match (absence.justifReasonDesc, absence.justifReasonCode) {
        (None, _) => ("N/A"@, Some("N/A"@)),
        (Some(reason), Some(code)) => (reason@, Some(code@)),
        (Some(reason), None) => (reason@, None),
    };
    match code {
        Some(code) => Some(
            AbsenceRow {
                id: absence_kind(absence.evtCode@),
                date: absence.evtDate@,
                justified: absence.isJustified,
                reason,
                code,
            },
        ),
        None => None,
    }
}

/// The word for a kind of absence.
fn absence_word(code: String) -> (word: String)
    ensures
        word@ == absence_kind(code@),
{
    if same_text(code.as_str(), "ABA0") {
        String::from_str("Assenza")
    } else if same_text(code.as_str(), "ABR0") {
        String::from_str("Ritardo")
    } else if same_text(code.as_str(), "ABR1") {
        String::from_str("R. Breve")
    } else {
        code
    }
}

impl SimpleAbsence {
    /// The row that shows `absence`.
    pub fn from_absence(absence: Absence) -> (row: Result<Self, DisplayError>)
        ensures
            match row {
                Ok(shown) => absence_row(absence) == Some(shown@),
                Err(error) => absence_row(absence) is None && error == (DisplayError::NoReasonCode {
                    event: absence.evtId,
                }),
            },
    {
        let (reason, code) = match (absence.justifReasonDesc, absence.justifReasonCode) {
            (None, _) => (String::from_str("N/A"), String::from_str("N/A")),
            (Some(reason), Some(code)) => (reason, code),
            (Some(_), None) => {
                return Err(DisplayError::NoReasonCode { event: absence.evtId });
            },
        };
        Ok(
            SimpleAbsence {
                id: absence_word(absence.evtCode),
                date: absence.evtDate,
                justified: absence.isJustified,
                reason,
                code,
            },
        )
    }
}

/// The heading of the table of absences.
pub open spec fn absence_heading() -> Seq<Seq<char>> {
    seq!["id"@, "date"@, "justified"@, "reason"@, "code"@]
}

/// The cells of a row of the table of absences.
pub open spec fn absence_cells(row: AbsenceRow) -> Seq<Seq<char>> {
    seq![
        row.id,
        row.date,
        if row.justified {
            "true"@
        } else {
            "false"@
        },
        row.reason,
        row.code,
    ]
}

impl TableRow for SimpleAbsence {
    open spec fn cells(&self) -> Seq<Seq<char>> {
        absence_cells(self@)
    }

    fn cell_texts(&self) -> (texts: Vec<String>) {
        cells5(
            self.id.as_str(),
            self.date.as_str(),
            if self.justified {
                "true"
            } else {
                "false"
            },
            self.reason.as_str(),
            self.code.as_str(),
        )
    }
}

/// The table of the absences `shown`, each of which has a row.
pub open spec fn absence_table(shown: Seq<Absence>) -> Seq<Seq<Seq<char>>> {
    Seq::new(
        shown.len() + 1,
        |i: int|
            if i == 0 {
                absence_heading()
            } else {
                absence_cells(absence_row(shown[i - 1])->0)
            },
    )
}

/// The absences as a table, in the order in which they came.
///
/// The first absence that has no row makes the whole an error. Without any
/// absence the text says that there are no records.
pub fn display_absences(absences: Absences, wrap_width: usize) -> (shown: Result<
    String,
    DisplayError,
>)
    ensures
        match shown {
            Ok(text) => {
                &&& forall|i: int|
                    0 <= i < absences.events@.len() ==> absence_row(
                        #[trigger] absences.events@[i],
                    ) is Some
                &&& text@ == if absences.events@.len() == 0 {
                    NO_RECORDS@
                } else {
                    rendered_table(absence_table(absences.events@), wrap_width as int)
                }
            },
            Err(error) => exists|i: int|
                {
                    &&& 0 <= i < absences.events@.len()
                    &&& absence_row(#[trigger] absences.events@[i]) is None
                    &&& forall|j: int| 0 <= j < i ==> absence_row(#[trigger] absences.events@[j]) is Some
                    &&& error == (DisplayError::NoReasonCode { event: absences.events@[i].evtId })
                },
        },
{
    let ghost events = absences.events@;
    let mut rows: Vec<SimpleAbsence> = Vec::new();
    for absence in it: absences.events
        invariant
            it.seq() == events,
            rows@.len() == it.index(),
            forall|k: int|
                0 <= k < rows@.len() ==> absence_row(#[trigger] events[k]) == Some(rows@[k]@),
    {
        match SimpleAbsence::from_absence(absence) {
            Ok(row) => rows.push(row),
            Err(error) => {
                assert(absence_row(events[it.index() as int]) is None);
                return Err(error);
            },
        }
    }
    if rows.len() == 0 {
        return Ok(String::from_str(NO_RECORDS));
    }
    let text = draw(cells5("id", "date", "justified", "reason", "code"), &rows, wrap_width);
    assert(table_of(absence_heading(), rows@) =~= absence_table(events));
    Ok(text)
}

} // verus!
