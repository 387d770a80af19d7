//! The shapes in which the server answers, and which of them a body is.
//!
//! The server tags none of its answers: what a body is shows in its shape
//! alone. A body that was read against every shape is the first shape, in a
//! fixed order, that it fits.
//!
//! Field names are the server's own. A number with a fractional part is kept
//! as its decimal text, and a value whose shape the server does not fix is
//! carried along as the JSON value that arrived.

use vstd::prelude::*;

verus! {

/// A JSON value of any shape, carried through unread.
#[verifier::external_type_specification]
#[verifier::external_body]
pub struct ExJsonValue(serde_json::Value);

/// An answer to an authenticated request: one of the shapes, in the order in
/// which a body is held against them.
#[derive(Debug)]
pub enum ResponseResult {
    ExpiredToken(ExpiredToken),
    Grades(Grades),
    Absences(Absences),
    Agendas(Agendas),
    Lessons(Lessons),
}

/// A body read against each shape of an answer: for each shape, what the
/// body holds if it fits that shape.
#[derive(Debug)]
pub struct ResponseFits {
    pub expired_token: Option<ExpiredToken>,
    pub grades: Option<Grades>,
    pub absences: Option<Absences>,
    pub agendas: Option<Agendas>,
    pub lessons: Option<Lessons>,
}

/// The answer that a body with the fits `fits` is: the first shape that it
/// fits, the notice of expiry before grades, absences, agenda and lessons.
pub open spec fn first_response(fits: ResponseFits) -> Option<ResponseResult> {
    if fits.expired_token is Some {
        Some(ResponseResult::ExpiredToken(fits.expired_token->0))
    } else if fits.grades is Some {
        Some(ResponseResult::Grades(fits.grades->0))
    } else if fits.absences is Some {
        Some(ResponseResult::Absences(fits.absences->0))
    } else if fits.agendas is Some {
        Some(ResponseResult::Agendas(fits.agendas->0))
    } else if fits.lessons is Some {
        Some(ResponseResult::Lessons(fits.lessons->0))
    } else {
        None
    }
}

impl ResponseResult {
    /// The answer that a body is, given what it holds under each shape; none
    /// if it fits no shape.
    pub fn first_fit(fits: ResponseFits) -> (answer: Option<ResponseResult>)
        ensures
            answer == first_response(fits),
            answer is None <==> fits.expired_token is None && fits.grades is None
                && fits.absences is None && fits.agendas is None && fits.lessons is None,
    {
        if let Some(notice) = fits.expired_token {
            Some(ResponseResult::ExpiredToken(notice))
        } else if let Some(grades) = fits.grades {
            Some(ResponseResult::Grades(grades))
        } else if let Some(absences) = fits.absences {
            Some(ResponseResult::Absences(absences))
        } else if let Some(agendas) = fits.agendas {
            Some(ResponseResult::Agendas(agendas))
        } else if let Some(lessons) = fits.lessons {
            Some(ResponseResult::Lessons(lessons))
        } else {
            None
        }
    }
}

/// The notice that the session token is no longer accepted.
#[allow(non_snake_case)]
#[derive(Debug)]
pub struct ExpiredToken {
    pub statusCode: u16,
    pub error: String,
    pub message: String,
}

/// The grades of a student.
#[derive(Debug)]
pub struct Grades {
    pub grades: Vec<Grade>,
}

impl Grades {
    /// No grades.
    pub fn new() -> (empty: Self)
        ensures
            empty.grades@.len() == 0,
    {
        Grades { grades: Vec::new() }
    }
}

/// One grade.
#[allow(non_snake_case)]
#[derive(Debug)]
pub struct Grade {
    pub subjectId: u32,
    pub subjectCode: String,
    pub subjectDesc: String,
    pub evtId: u32,
    pub evtDate: String,
    /// The grade's value, as decimal text.
    pub decimalValue: String,
    pub displayValue: String,
    /// Spelled as the server spells it.
    pub displaPos: u32,
    pub notesForFamily: String,
    pub color: String,
    pub canceled: bool,
    pub underlined: bool,
    pub periodPos: u32,
    pub periodDesc: String,
    pub componentPos: u32,
    pub componentDesc: String,
    /// The grade's weight, as decimal text.
    pub weightFactor: String,
    pub skillId: u32,
    pub gradeMasterId: u32,
    pub skillDesc: Option<serde_json::Value>,
    pub skillCode: Option<serde_json::Value>,
    pub skillMasterId: u32,
    pub skillValueDesc: String,
    pub skillValueShortDesc: Option<serde_json::Value>,
    /// Spelled as the server spells it.
    pub oldskillId: u32,
    pub oldskillDesc: String,
}

/// The absences of a student.
#[derive(Debug)]
pub struct Absences {
    pub events: Vec<Absence>,
}

impl Absences {
    /// No absences.
    pub fn new() -> (empty: Self)
        ensures
            empty.events@.len() == 0,
    {
        Absences { events: Vec::new() }
    }
}

/// One absence, late arrival or early leave.
#[allow(non_snake_case)]
#[derive(Debug)]
pub struct Absence {
    pub evtId: u32,
    pub evtCode: String,
    pub evtDate: String,
    pub evtHPos: Option<u32>,
    pub evtValue: Option<u32>,
    pub isJustified: bool,
    pub justifReasonCode: Option<String>,
    pub justifReasonDesc: Option<String>,
    pub hoursAbsence: Vec<serde_json::Value>,
}

/// The agenda of a class over a range of days.
#[derive(Debug)]
pub struct Agendas {
    pub agenda: Vec<Agenda>,
}

impl Agendas {
    /// An empty agenda.
    pub fn new() -> (empty: Self)
        ensures
            empty.agenda@.len() == 0,
    {
        Agendas { agenda: Vec::new() }
    }
}

/// One entry of the agenda.
#[allow(non_snake_case)]
#[derive(Debug)]
pub struct Agenda {
    pub evtId: u32,
    pub evtCode: String,
    pub evtDatetimeBegin: String,
    pub evtDatetimeEnd: String,
    pub isFullDay: bool,
    pub notes: String,
    pub authorName: String,
    pub classDesc: String,
    pub subjectId: Option<u32>,
    pub subjectDesc: Option<String>,
    pub homeworkId: Option<serde_json::Value>,
}

/// An answer to a login: one of the two shapes, in the order in which a body
/// is held against them.
#[derive(Debug)]
pub enum LoginResponse {
    LoginPayload(LoginPayload),
    LoginError(LoginError),
}

/// A body read against both shapes of an answer to a login.
#[derive(Debug)]
pub struct LoginFits {
    pub payload: Option<LoginPayload>,
    pub error: Option<LoginError>,
}

/// The answer to a login that a body with the fits `fits` is: the payload if
/// it fits that shape, else the error if it fits that one.
pub open spec fn first_login_response(fits: LoginFits) -> Option<LoginResponse> {
    if fits.payload is Some {
        Some(LoginResponse::LoginPayload(fits.payload->0))
    } else if fits.error is Some {
        Some(LoginResponse::LoginError(fits.error->0))
    } else {
        None
    }
}

impl LoginResponse {
    /// The answer to a login that a body is, given what it holds under each
    /// shape; none if it fits neither.
    pub fn first_fit(fits: LoginFits) -> (answer: Option<LoginResponse>)
        ensures
            answer == first_login_response(fits),
            answer is None <==> fits.payload is None && fits.error is None,
    {
        if let Some(payload) = fits.payload {
            Some(LoginResponse::LoginPayload(payload))
        } else if let Some(error) = fits.error {
            Some(LoginResponse::LoginError(error))
        } else {
            None
        }
    }
}

/// What the server sends when it accepts the credentials.
#[allow(non_snake_case)]
#[derive(Debug)]
pub struct LoginPayload {
    pub expire: String,
    pub firstName: String,
    /// The student's identifier between one leading and one trailing character.
    pub ident: String,
    pub lastName: String,
    pub release: String,
    pub showPwdChangeReminder: bool,
    pub token: String,
    pub tokenAP: String,
}

/// What the server sends when it refuses the credentials.
#[allow(non_snake_case)]
#[derive(Debug)]
pub struct LoginError {
    pub statusCode: u16,
    pub error: String,
    pub info: String,
    pub message: String,
}

/// The lessons of a class over a range of days.
#[derive(Debug)]
pub struct Lessons {
    pub lessons: Vec<Lesson>,
}

impl Lessons {
    /// No lessons.
    pub fn new() -> (empty: Self)
        ensures
            empty.lessons@.len() == 0,
    {
        Lessons { lessons: Vec::new() }
    }
}

/// One lesson.
#[allow(non_snake_case)]
#[derive(Debug)]
pub struct Lesson {
    pub evtId: u32,
    pub evtDate: String,
    pub evtCode: String,
    pub evtHPos: u32,
    pub evtDuration: u32,
    pub classDesc: String,
    pub authorName: String,
    pub subjectId: Option<u32>,
    pub subjectCode: Option<serde_json::Value>,
    pub subjectDesc: Option<String>,
    pub lessonType: Option<String>,
    pub lessonArg: String,
}

} // verus!
