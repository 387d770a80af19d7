use tabled::builder::Builder;
use tabled::settings::object::Rows;
use tabled::settings::{Alignment, Modify, Style, Width};
use terminalviva::display::{
    display_absences, display_agenda, display_grades, display_lessons, narrow, same_subject,
    sort_date_grade, subject_name, DisplayError, SimpleAbsence, SimpleAgenda, SimpleGrade,
    SimpleLesson,
};
use terminalviva::input::{GradeSettings, Settings};
use terminalviva::response_types::{
    Absence, Absences, Agenda, Agendas, Grade, Grades, Lesson, Lessons,
};

fn grade(subject: &str, date: &str, value: &str, weight: &str) -> Grade {
    Grade {
        subjectId: 1,
        subjectCode: "".to_string(),
        subjectDesc: subject.to_string(),
        evtId: 10,
        evtDate: date.to_string(),
        decimalValue: value.to_string(),
        displayValue: value.to_string(),
        displaPos: 1,
        notesForFamily: "".to_string(),
        color: "green".to_string(),
        canceled: false,
        underlined: false,
        periodPos: 1,
        periodDesc: "Trimestre".to_string(),
        componentPos: 1,
        componentDesc: "Orale".to_string(),
        weightFactor: weight.to_string(),
        skillId: 0,
        gradeMasterId: 0,
        skillDesc: None,
        skillCode: None,
        skillMasterId: 0,
        skillValueDesc: "".to_string(),
        skillValueShortDesc: None,
        oldskillId: 0,
        oldskillDesc: "".to_string(),
    }
}

fn absence(code: &str, date: &str, justified: bool, reason: Option<(&str, Option<&str>)>) -> Absence {
    Absence {
        evtId: 77,
        evtCode: code.to_string(),
        evtDate: date.to_string(),
        evtHPos: None,
        evtValue: None,
        isJustified: justified,
        justifReasonCode: reason.and_then(|r| r.1).map(|c| c.to_string()),
        justifReasonDesc: reason.map(|r| r.0.to_string()),
        hoursAbsence: Vec::new(),
    }
}

fn entry(code: &str, begin: &str, notes: &str, teacher: &str) -> Agenda {
    Agenda {
        evtId: 5,
        evtCode: code.to_string(),
        evtDatetimeBegin: begin.to_string(),
        evtDatetimeEnd: begin.to_string(),
        isFullDay: false,
        notes: notes.to_string(),
        authorName: teacher.to_string(),
        classDesc: "5A".to_string(),
        subjectId: None,
        subjectDesc: None,
        homeworkId: None,
    }
}

fn lesson(date: &str, arg: &str, code: &str, teacher: &str) -> Lesson {
    Lesson {
        evtId: 9,
        evtDate: date.to_string(),
        evtCode: code.to_string(),
        evtHPos: 1,
        evtDuration: 1,
        classDesc: "5A".to_string(),
        authorName: teacher.to_string(),
        subjectId: None,
        subjectCode: None,
        subjectDesc: None,
        lessonType: None,
        lessonArg: arg.to_string(),
    }
}

fn settings(desc_date: bool, name: Option<&str>) -> GradeSettings {
    GradeSettings::new(Settings::new(desc_date), name.map(|n| n.to_string()))
}

fn drawn(records: Vec<Vec<&str>>, wrap_width: usize) -> String {
    let records: Vec<Vec<String>> =
        records.into_iter().map(|row| row.into_iter().map(|c| c.to_string()).collect()).collect();
    let mut table = Builder::from(records).build();
    table
        .with(Style::modern())
        .with(Modify::new(Rows::first()).with(Alignment::center()))
        .with(Modify::new(Rows::new(1..)).with(Width::wrap(wrap_width).keep_words()));
    table.to_string()
}

fn dates(rows: &[SimpleGrade]) -> Vec<&str> {
    rows.iter().map(|r| r.date.as_str()).collect()
}

#[test]
fn subjects_lose_the_section_and_get_their_short_names() {
    assert_eq!(subject_name("LINGUA E LETTERATURA ITALIANA"), "ITALIANO");
    assert_eq!(subject_name("STORIA,CITTADINANZA E COSTITUZIONE"), "STORIA");
    assert_eq!(subject_name("SCIENZE MOTORIE E SPORTIVE"), "MOTORIA");
    assert_eq!(
        subject_name(
            "TECNOLOGIE E PROGETTAZIONE DI SISTEMI INFORMATICI E DI TELECOMUNICAZIONI sez. INFORMATICA"
        ),
        "TPSIT"
    );
    assert_eq!(subject_name("INFORMATICA sez. INFORMATICA"), "INFORMATICA ");
    assert_eq!(subject_name("MATEMATICA"), "MATEMATICA");
    assert_eq!(subject_name(""), "");
}

#[test]
fn the_section_is_taken_out_everywhere_but_only_when_it_ends_the_name() {
    assert_eq!(subject_name("sez. INFORMATICA e sez. INFORMATICA"), " e ");
    assert_eq!(subject_name("sez. INFORMATICA e altro"), "sez. INFORMATICA e altro");
    assert_eq!(
        subject_name("TECNOLOGIE E PROGETTAZIONE DI SISTEMI INFORMATICI E DI TELECOMUNICAZIONI"),
        "TECNOLOGIE E PROGETTAZIONE DI SISTEMI INFORMATICI E DI TELECOMUNICAZIONI"
    );
}

#[test]
fn a_grade_row_takes_five_fields() {
    let row = SimpleGrade::from_grade(grade("STORIA,CITTADINANZA E COSTITUZIONE", "2023-01-09", "7.5", "1"));
    assert_eq!(row.subject, "STORIA");
    assert_eq!(row.date, "2023-01-09");
    assert_eq!(row.grade, "7.5");
    assert_eq!(row.subject_type, "Orale");
    assert_eq!(row.weight, "1");
}

#[test]
fn subjects_are_compared_without_case_and_outer_white_space() {
    assert!(same_subject("STORIA", "storia"));
    assert!(same_subject("  Storia\t", "sTORIA "));
    assert!(same_subject("INFORMATICA ", "informatica"));
    assert!(!same_subject("STORIA", "STO RIA"));
    assert!(!same_subject("STORIA", "STORIE"));
    assert!(same_subject("", "   "));
}

#[test]
fn narrowing_keeps_the_grades_of_the_subject_in_their_order() {
    let grades = vec![
        grade("STORIA,CITTADINANZA E COSTITUZIONE", "2023-01-09", "7", "1"),
        grade("MATEMATICA", "2023-01-10", "8", "1"),
        grade("storia", "2023-01-11", "6", "1"),
        grade(" Storia ", "2023-01-08", "5", "1"),
    ];
    let kept = narrow(grades, "  sToRiA ");
    let values: Vec<&str> = kept.iter().map(|g| g.decimalValue.as_str()).collect();
    assert_eq!(values, vec!["7", "6", "5"]);
}

#[test]
fn narrowing_to_an_unknown_subject_keeps_nothing() {
    let grades = vec![grade("MATEMATICA", "2023-01-10", "8", "1")];
    assert!(narrow(grades, "latino").is_empty());
    assert!(narrow(Vec::new(), "latino").is_empty());
}

#[test]
fn rows_are_sorted_by_date_from_the_earliest() {
    let rows = vec![
        SimpleGrade::from_grade(grade("A", "2023-02-01", "1", "1")),
        SimpleGrade::from_grade(grade("B", "2022-12-31", "2", "1")),
        SimpleGrade::from_grade(grade("C", "2023-01-31", "3", "1")),
    ];
    let sorted = sort_date_grade(rows, false);
    assert_eq!(dates(&sorted), vec!["2022-12-31", "2023-01-31", "2023-02-01"]);
}

#[test]
fn rows_are_sorted_by_date_from_the_latest() {
    let rows = vec![
        SimpleGrade::from_grade(grade("A", "2023-02-01", "1", "1")),
        SimpleGrade::from_grade(grade("B", "2022-12-31", "2", "1")),
        SimpleGrade::from_grade(grade("C", "2023-01-31", "3", "1")),
    ];
    let sorted = sort_date_grade(rows, true);
    assert_eq!(dates(&sorted), vec!["2023-02-01", "2023-01-31", "2022-12-31"]);
}

#[test]
fn rows_of_one_date_keep_their_order_either_way() {
    let make = || {
        vec![
            SimpleGrade::from_grade(grade("A", "2023-01-09", "1", "1")),
            SimpleGrade::from_grade(grade("B", "2023-01-08", "2", "1")),
            SimpleGrade::from_grade(grade("C", "2023-01-09", "3", "1")),
            SimpleGrade::from_grade(grade("D", "2023-01-08", "4", "1")),
            SimpleGrade::from_grade(grade("E", "2023-01-09", "5", "1")),
        ]
    };
    let up: Vec<String> = sort_date_grade(make(), false).into_iter().map(|r| r.subject).collect();
    assert_eq!(up, vec!["B", "D", "A", "C", "E"]);
    let down: Vec<String> = sort_date_grade(make(), true).into_iter().map(|r| r.subject).collect();
    assert_eq!(down, vec!["A", "C", "E", "B", "D"]);
}

#[test]
fn sorting_nothing_or_one_row() {
    assert!(sort_date_grade(Vec::new(), false).is_empty());
    let one = sort_date_grade(vec![SimpleGrade::from_grade(grade("A", "x", "1", "1"))], true);
    assert_eq!(dates(&one), vec!["x"]);
}

#[test]
fn no_grades_give_no_records() {
    let (text, rows) = display_grades(Grades::new(), settings(false, None), 30);
    assert_eq!(text, "No records");
    assert!(rows.is_empty());
}

#[test]
fn grades_are_drawn_as_a_table() {
    let grades = Grades { grades: vec![grade("STORIA,CITTADINANZA E COSTITUZIONE", "2023-01-09", "7.5", "1")] };
    let (text, rows) = display_grades(grades, settings(false, None), 30);
    let expected = "\
┌─────────┬────────────┬───────┬──────────────┬────────┐
│ subject │    date    │ grade │ subject_type │ weight │
├─────────┼────────────┼───────┼──────────────┼────────┤
│ STORIA  │ 2023-01-09 │ 7.5   │ Orale        │ 1      │
└─────────┴────────────┴───────┴──────────────┴────────┘";
    assert_eq!(text, expected);
    assert_eq!(rows.len(), 1);
    assert_eq!(rows[0].grade, "7.5");
    assert_eq!(rows[0].weight, "1");
}

#[test]
fn grades_are_narrowed_then_sorted() {
    let grades = Grades {
        grades: vec![
            grade("STORIA,CITTADINANZA E COSTITUZIONE", "2023-02-01", "7", "1"),
            grade("MATEMATICA", "2023-01-10", "8", "2"),
            grade("STORIA,CITTADINANZA E COSTITUZIONE", "2023-01-09", "6.5", "0.5"),
        ],
    };
    let (text, rows) = display_grades(grades, settings(true, Some(" storia")), 30);
    assert_eq!(dates(&rows), vec!["2023-02-01", "2023-01-09"]);
    let expected = drawn(
        vec![
            vec!["subject", "date", "grade", "subject_type", "weight"],
            vec!["STORIA", "2023-02-01", "7", "Orale", "1"],
            vec!["STORIA", "2023-01-09", "6.5", "Orale", "0.5"],
        ],
        30,
    );
    assert_eq!(text, expected);
}

#[test]
fn grades_narrowed_to_nothing_give_a_table_of_the_heading_alone() {
    let grades = Grades { grades: vec![grade("MATEMATICA", "2023-01-10", "8", "2")] };
    let (text, rows) = display_grades(grades, settings(false, Some("latino")), 30);
    assert!(rows.is_empty());
    assert_eq!(text, drawn(vec![vec!["subject", "date", "grade", "subject_type", "weight"]], 30));
    assert!(text.contains("subject_type"));
}

#[test]
fn long_cells_are_wrapped_at_the_width_given() {
    let long = "una descrizione piuttosto lunga della materia";
    let grades = Grades { grades: vec![grade(long, "2023-01-10", "8", "2")] };
    let (text, _) = display_grades(grades, settings(false, None), 12);
    assert_eq!(
        text,
        drawn(
            vec![
                vec!["subject", "date", "grade", "subject_type", "weight"],
                vec![long, "2023-01-10", "8", "Orale", "2"],
            ],
            12,
        )
    );
    assert!(text.lines().count() > 5);
    assert!(!text.contains(long));
}

#[test]
fn an_absence_row_names_its_kind() {
    let row = SimpleAbsence::from_absence(absence("ABA0", "2023-01-09", false, None)).unwrap();
    assert_eq!(row.id, "Assenza");
    assert_eq!(row.date, "2023-01-09");
    assert!(!row.justified);
    assert_eq!(row.reason, "N/A");
    assert_eq!(row.code, "N/A");
    let late = SimpleAbsence::from_absence(absence("ABR0", "d", true, None)).unwrap();
    assert_eq!(late.id, "Ritardo");
    let short = SimpleAbsence::from_absence(absence("ABR1", "d", true, None)).unwrap();
    assert_eq!(short.id, "R. Breve");
}

#[test]
fn an_unknown_kind_of_absence_stands_for_itself() {
    let row = SimpleAbsence::from_absence(absence("ABU0", "2023-01-09", true, None)).unwrap();
    assert_eq!(row.id, "ABU0");
}

#[test]
fn an_absence_with_a_reason_shows_reason_and_code() {
    let row = SimpleAbsence::from_absence(absence(
        "ABA0",
        "2023-01-09",
        true,
        Some(("Motivi di salute", Some("A"))),
    ))
    .unwrap();
    assert!(row.justified);
    assert_eq!(row.reason, "Motivi di salute");
    assert_eq!(row.code, "A");
}

#[test]
fn an_absence_with_a_reason_and_no_code_has_no_row() {
    let given = absence("ABA0", "2023-01-09", true, Some(("Motivi di salute", None)));
    match SimpleAbsence::from_absence(given) {
        Err(DisplayError::NoReasonCode { event }) => assert_eq!(event, 77),
        other => panic!("unexpected: {:?}", other),
    }
}

#[test]
fn no_absences_give_no_records() {
    assert_eq!(display_absences(Absences::new(), 30).unwrap(), "No records");
}

#[test]
fn absences_are_drawn_in_the_order_given() {
    let absences = Absences {
        events: vec![
            absence("ABR0", "2023-02-01", false, None),
            absence("ABA0", "2023-01-09", true, Some(("Salute", Some("A")))),
        ],
    };
    let expected = "\
┌─────────┬────────────┬───────────┬────────┬──────┐
│   id    │    date    │ justified │ reason │ code │
├─────────┼────────────┼───────────┼────────┼──────┤
│ Ritardo │ 2023-02-01 │ false     │ N/A    │ N/A  │
├─────────┼────────────┼───────────┼────────┼──────┤
│ Assenza │ 2023-01-09 │ true      │ Salute │ A    │
└─────────┴────────────┴───────────┴────────┴──────┘";
    assert_eq!(display_absences(absences, 30).unwrap(), expected);
}

#[test]
fn the_first_absence_without_a_row_is_reported() {
    let mut second = absence("ABA0", "2023-01-10", true, Some(("x", None)));
    second.evtId = 2;
    let mut third = absence("ABA0", "2023-01-11", true, Some(("y", None)));
    third.evtId = 3;
    let absences = Absences { events: vec![absence("ABA0", "2023-01-09", true, None), second, third] };
    match display_absences(absences, 30) {
        Err(DisplayError::NoReasonCode { event }) => assert_eq!(event, 2),
        other => panic!("unexpected: {:?}", other),
    }
}

#[test]
fn an_agenda_row_is_labelled_with_its_day() {
    let row =
        SimpleAgenda::from_agenda(entry("AGHW", "2023-01-09T08:00:00+01:00", "pag. 12", "ROSSI"))
            .unwrap();
    assert_eq!(row.date, "2023-01-09 Monday");
    assert_eq!(row.code, "Homework");
    assert_eq!(row.notes, "pag. 12");
    assert_eq!(row.teacher, "ROSSI");
    assert_eq!(row.time, "2023-01-09T08:00:00+01:00");
}

#[test]
fn an_agenda_row_is_labelled_with_the_day_at_its_own_offset() {
    let row = SimpleAgenda::from_agenda(entry("AGNT", "2023-01-09T00:30:00+0100", "", "")).unwrap();
    assert_eq!(row.date, "2023-01-09 Monday");
    assert_eq!(row.code, "Nota");
    let late = SimpleAgenda::from_agenda(entry("AGNT", "2023-01-08T23:30:00-05:00", "", "")).unwrap();
    assert_eq!(late.date, "2023-01-08 Sunday");
}

#[test]
fn an_unknown_kind_of_agenda_entry_stands_for_itself() {
    let row = SimpleAgenda::from_agenda(entry("AGXX", "2023-01-09T08:00:00+01:00", "", "")).unwrap();
    assert_eq!(row.code, "AGXX");
}

#[test]
fn an_agenda_entry_without_a_day_has_no_row() {
    for begin in ["2023-01-09", "", "2023-02-30T08:00:00+01:00", "2023-01-09T08:00:00"] {
        match SimpleAgenda::from_agenda(entry("AGHW", begin, "", "")) {
            Err(DisplayError::BadDate { date }) => assert_eq!(date, begin),
            other => panic!("unexpected: {:?}", other),
        }
    }
}

#[test]
fn no_agenda_gives_no_records() {
    assert_eq!(display_agenda(Agendas::new(), 30).unwrap(), "No records");
}

#[test]
fn the_agenda_is_drawn_in_the_order_of_its_entries() {
    let agenda = Agendas {
        agenda: vec![
            entry("AGNT", "2023-01-11T10:00:00+01:00", "verifica", "BIANCHI"),
            entry("AGHW", "2023-01-09T08:00:00+01:00", "pag. 12", "ROSSI"),
        ],
    };
    let expected = "\
┌──────────────────────┬──────────┬──────────┬─────────┐
│         date         │   code   │  notes   │ teacher │
├──────────────────────┼──────────┼──────────┼─────────┤
│ 2023-01-09 Monday    │ Homework │ pag. 12  │ ROSSI   │
├──────────────────────┼──────────┼──────────┼─────────┤
│ 2023-01-11 Wednesday │ Nota     │ verifica │ BIANCHI │
└──────────────────────┴──────────┴──────────┴─────────┘";
    assert_eq!(display_agenda(agenda, 30).unwrap(), expected);
}

#[test]
fn the_first_agenda_entry_without_a_day_is_reported() {
    let agenda = Agendas {
        agenda: vec![
            entry("AGNT", "2023-01-11T10:00:00+01:00", "", ""),
            entry("AGHW", "soon", "", ""),
            entry("AGHW", "later", "", ""),
        ],
    };
    match display_agenda(agenda, 30) {
        Err(DisplayError::BadDate { date }) => assert_eq!(date, "soon"),
        other => panic!("unexpected: {:?}", other),
    }
}

#[test]
fn a_lesson_row_is_labelled_with_its_day() {
    let row = SimpleLesson::from_lesson(lesson("2023-01-10", "Le guerre puniche", "LSF0", "VERDI")).unwrap();
    assert_eq!(row.date, "2023-01-10 Tuesday");
    assert_eq!(row.desc, "Le guerre puniche");
    assert_eq!(row.code, "LSF0");
    assert_eq!(row.teacher, "VERDI");
    assert_eq!(row.time, "2023-01-10");
}

#[test]
fn a_lesson_without_a_day_has_no_row() {
    for day in ["10/01/2023", "2023-02-30", ""] {
        match SimpleLesson::from_lesson(lesson(day, "", "", "")) {
            Err(DisplayError::BadDate { date }) => assert_eq!(date, day),
            other => panic!("unexpected: {:?}", other),
        }
    }
}

#[test]
fn no_lessons_give_no_records() {
    assert_eq!(display_lessons(Lessons::new(), 30).unwrap(), "No records");
}

#[test]
fn lessons_are_drawn_in_the_order_of_their_days() {
    let lessons = Lessons {
        lessons: vec![
            lesson("2023-01-10", "Derivate", "LSF0", "VERDI"),
            lesson("2023-01-09", "Limiti", "LSF0", "VERDI"),
            lesson("2023-01-10", "Integrali", "LSC0", "NERI"),
        ],
    };
    let expected = drawn(
        vec![
            vec!["date", "desc", "code", "teacher"],
            vec!["2023-01-09 Monday", "Limiti", "LSF0", "VERDI"],
            vec!["2023-01-10 Tuesday", "Derivate", "LSF0", "VERDI"],
            vec!["2023-01-10 Tuesday", "Integrali", "LSC0", "NERI"],
        ],
        30,
    );
    assert_eq!(display_lessons(lessons, 30).unwrap(), expected);
}

#[test]
fn the_first_lesson_without_a_day_is_reported() {
    let lessons = Lessons {
        lessons: vec![lesson("2023-01-10", "", "", ""), lesson("never", "", "", "")],
    };
    match display_lessons(lessons, 30) {
        Err(DisplayError::BadDate { date }) => assert_eq!(date, "never"),
        other => panic!("unexpected: {:?}", other),
    }
}

#[test]
fn a_width_of_nothing_is_drawn_too() {
    let lessons = Lessons { lessons: vec![lesson("2023-01-10", "Derivate", "LSF0", "VERDI")] };
    let text = display_lessons(lessons, 0).unwrap();
    assert_eq!(
        text,
        drawn(
            vec![
                vec!["date", "desc", "code", "teacher"],
                vec!["2023-01-10 Tuesday", "Derivate", "LSF0", "VERDI"],
            ],
            0,
        )
    );
}
