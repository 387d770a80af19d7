//! The agenda: the words for the kinds of entries, the labels of their
//! days, and the table.

use crate::dates::{parse_moment, parsed_moment_day, MOMENT_FORMAT};
use crate::display::{
    cells4, day_label, draw, label_or_error, rendered_table, table_of, DisplayError, TableRow,
    NO_RECORDS,
};
use crate::response_types::{Agenda, Agendas};
use crate::sorting::{lemma_sorted_alike, sort_by_date, sorted_by_date, Dated};
use crate::text::same_text;
use vstd::prelude::*;

verus! {

/// An entry of the agenda as it is shown.
#[derive(Debug)]
pub struct SimpleAgenda {
    /// When the entry begins, as the server gave it; not shown.
    pub time: String,
    pub date: String,
    pub code: String,
    pub notes: String,
    pub teacher: String,
}

/// What a `SimpleAgenda` holds.
pub struct AgendaRow {
    pub time: Seq<char>,
    pub date: Seq<char>,
    pub code: Seq<char>,
    pub notes: Seq<char>,
    pub teacher: Seq<char>,
}

impl View for SimpleAgenda {
    type V = AgendaRow;

    open spec fn view(&self) -> AgendaRow {
        AgendaRow {
            time: self.time@,
            date: self.date@,
            code: self.code@,
            notes: self.notes@,
            teacher: self.teacher@,
        }
    }
}

/// The word for a kind of agenda entry; a code without a word stands for
/// itself.
pub open spec fn agenda_kind(code: Seq<char>) -> Seq<char> {
    if code == "AGHW"@ {
        "Homework"@
    } else if code == "AGNT"@ {
        "Nota"@
    } else {
        code
    }
}

/// The row that shows `entry`, whose date is the label of the day on which
/// the entry begins. An entry whose beginning names no day has no row.
pub open spec fn agenda_row(entry: Agenda) -> Option<AgendaRow> {
    match day_label(parsed_moment_day(entry.evtDatetimeBegin@, MOMENT_FORMAT@)) {
        Some(label) => Some(
            AgendaRow {
                time: entry.evtDatetimeBegin@,
                date: label,
                code: agenda_kind(entry.evtCode@),
                notes: entry.notes@,
                teacher: entry.authorName@,
            },
        ),
        None => None,
    }
}

impl SimpleAgenda {
    /// The row that shows `agenda`.
    pub fn from_agenda(agenda: Agenda) -> (row: Result<Self, DisplayError>)
        ensures
            match row {
                Ok(shown) => agenda_row(agenda) == Some(shown@),
                Err(error) => {
                    &&& agenda_row(agenda) is None
                    &&& error matches DisplayError::BadDate { date }
                    &&& date@ == agenda.evtDatetimeBegin@
                },
            },
    {
        let begin = agenda.evtDatetimeBegin;
        let label = label_or_error(parse_moment(begin.as_str(), MOMENT_FORMAT), begin.as_str())?;
        let code = if same_text(agenda.evtCode.as_str(), "AGHW") {
            String::from_str("Homework")
        } else if same_text(agenda.evtCode.as_str(), "AGNT") {
            String::from_str("Nota")
        } else {
            agenda.evtCode
        };
        Ok(
            SimpleAgenda {
                time: begin,
                date: label,
                code,
                notes: agenda.notes,
                teacher: agenda.authorName,
            },
        )
    }
}

impl Dated for SimpleAgenda {
    open spec fn date_text(&self) -> Seq<char> {
        self.time@
    }

    fn date(&self) -> (text: &str) {
        self.time.as_str()
    }
}

impl Dated for Agenda {
    open spec fn date_text(&self) -> Seq<char> {
        self.evtDatetimeBegin@
    }

    fn date(&self) -> (text: &str) {
        self.evtDatetimeBegin.as_str()
    }
}

/// The heading of the table of the agenda.
pub open spec fn agenda_heading() -> Seq<Seq<char>> {
    seq!["date"@, "code"@, "notes"@, "teacher"@]
}

/// The cells of a row of the table of the agenda.
pub open spec fn agenda_cells(row: AgendaRow) -> Seq<Seq<char>> {
    seq![row.date, row.code, row.notes, row.teacher]
}

impl TableRow for SimpleAgenda {
    open spec fn cells(&self) -> Seq<Seq<char>> {
        agenda_cells(self@)
    }

    fn cell_texts(&self) -> (texts: Vec<String>) {
        cells4(self.date.as_str(), self.code.as_str(), self.notes.as_str(), self.teacher.as_str())
    }
}

/// The table of the entries `shown`, each of which has a row.
pub open spec fn agenda_table(shown: Seq<Agenda>) -> Seq<Seq<Seq<char>>> {
    Seq::new(
        shown.len() + 1,
        |i: int|
            if i == 0 {
                agenda_heading()
            } else {
                agenda_cells(agenda_row(shown[i - 1])->0)
            },
    )
}

/// The agenda as a table, in the order in which its entries begin.
///
/// The first entry that has no row makes the whole an error. Without any
/// entry the text says that there are no records.
pub fn display_agenda(agenda: Agendas, wrap_width: usize) -> (shown: Result<String, DisplayError>)
    ensures
        match shown {
            Ok(text) => {
                &&& forall|i: int|
                    0 <= i < agenda.agenda@.len() ==> agenda_row(#[trigger] agenda.agenda@[i]) is Some
                &&& text@ == if agenda.agenda@.len() == 0 {
                    NO_RECORDS@
                } else {
                    rendered_table(
                        agenda_table(sorted_by_date(agenda.agenda@, false)),
                        wrap_width as int,
                    )
                }
            },
            Err(error) => exists|i: int|
                {
                    &&& 0 <= i < agenda.agenda@.len()
                    &&& agenda_row(#[trigger] agenda.agenda@[i]) is None
                    &&& forall|j: int| 0 <= j < i ==> agenda_row(#[trigger] agenda.agenda@[j]) is Some
                    &&& error matches DisplayError::BadDate { date }
                    &&& date@ == agenda.agenda@[i].evtDatetimeBegin@
                },
        },
{
    let ghost entries = agenda.agenda@;
    let mut rows: Vec<SimpleAgenda> = Vec::new();
    for entry in it: agenda.agenda
        invariant
            it.seq() == entries,
            rows@.len() == it.index(),
            forall|k: int|
                0 <= k < rows@.len() ==> agenda_row(#[trigger] entries[k]) == Some(rows@[k]@),
    {
        match SimpleAgenda::from_agenda(entry) {
            Ok(row) => rows.push(row),
            Err(error) => {
                assert(agenda_row(entries[it.index() as int]) is None);
                return Err(error);
            },
        }
    }
    if rows.len() == 0 {
        return Ok(String::from_str(NO_RECORDS));
    }
    proof {
        lemma_sorted_alike(
            rows@,
            entries,
            false,
            |row: SimpleAgenda, entry: Agenda| agenda_row(entry) == Some(row@),
        );
    }
    let rows = sort_by_date(rows, false);
    let text = draw(cells4("date", "code", "notes", "teacher"), &rows, wrap_width);
    assert(table_of(agenda_heading(), rows@) =~= agenda_table(sorted_by_date(entries, false)));
    Ok(text)
}

} // verus!
