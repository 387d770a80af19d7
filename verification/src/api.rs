//! Credentials, the requests that the tool sends, and what a login answer
//! yields.

use crate::dates::{
    agenda_end, agenda_start, get_current_agenda_week_date, get_current_lessons_week_date,
    get_next_week_date, lessons_end, lessons_start, next_week_end, next_week_start, range_text,
    Day,
};
use crate::response_types::{first_login_response, LoginFits, LoginResponse};
use crate::text::{optional_text, replace, replaced, same_text};
use vstd::prelude::*;

verus! {

/// Address under which every endpoint of the server lies.
pub const BASE_URL: &'static str = "https://web.spaggiari.eu/rest/v1";

/// What stands in a request's address for the student's identifier until the
/// session token is known.
pub const STUDENT_ID_MARK: &'static str = "<studentID>";

/// The date by which the agenda of the coming week is asked for.
pub const NEXT_WEEK: &'static str = "nextweek";

/// The user's name and password.
#[derive(Debug)]
pub struct Credentials {
    pub username: String,
    pub password: String,
}

/// A session: the server's two tokens and the student's identifier.
#[allow(non_snake_case)]
#[derive(Debug)]
pub struct TokenCredential {
    pub token: String,
    pub tokenAP: String,
    pub studentId: String,
}

impl Clone for TokenCredential {
    fn clone(&self) -> (copy: Self)
        ensures
            copy == *self,
    {
        TokenCredential {
            token: self.token.clone(),
            tokenAP: self.tokenAP.clone(),
            studentId: self.studentId.clone(),
        }
    }
}

/// The body of a login request.
#[derive(Debug)]
pub struct LoginData {
    pub ident: String,
    pub uid: String,
    pub pass: String,
}

impl LoginData {
    /// The login body for `credentials`: the user's name both as `ident` and
    /// as `uid`, and the password.
    pub fn new(credentials: Credentials) -> (data: LoginData)
        ensures
            data.ident@ == credentials.username@,
            data.uid@ == credentials.username@,
            data.pass@ == credentials.password@,
    {
        LoginData {
            ident: credentials.username.clone(),
            uid: credentials.username,
            pass: credentials.password,
        }
    }
}

/// The address to which a login is posted.
pub fn login_url() -> (url: String)
    ensures
        url@ == BASE_URL@ + "/auth/login"@,
{
    let mut url = String::from_str(BASE_URL);
    url.append("/auth/login");
    url
}

/// Why a login gave no session.
#[derive(Debug)]
pub enum LoginFailure {
    /// The server refused the credentials, with this message.
    Refused { message: String },
    /// The server accepted, but its `ident` is too short to hold an
    /// identifier between a leading and a trailing character.
    ShortIdent { ident: String },
    /// The answer had neither the shape of a payload nor that of an error;
    /// `error` says where reading it failed.
    Unreadable { error: String },
}

/// The student's identifier inside `ident`: all but its first and its last
/// character.
pub open spec fn student_id_of(ident: Seq<char>) -> Seq<char>
    recommends
        ident.len() >= 2,
{
    ident.subrange(1, ident.len() - 1)
}

/// Whether `session` is what the answer `answer` to a login yields.
///
/// A payload gives the session: its two tokens, and as the student's
/// identifier its `ident` without the first and the last character. An
/// `ident` of fewer than two characters is refused, as are an error answer
/// and one that was not read as either shape.
pub open spec fn login_yields(
    answer: Result<LoginResponse, String>,
    session: Result<TokenCredential, LoginFailure>,
) -> bool {
    match answer {
        Ok(LoginResponse::LoginPayload(payload)) => if payload.ident@.len() >= 2 {
            &&& session matches Ok(token)
            &&& token.token@ == payload.token@
            &&& token.tokenAP@ == payload.tokenAP@
            &&& token.studentId@ == student_id_of(payload.ident@)
        } else {
            &&& session matches Err(LoginFailure::ShortIdent { ident })
            &&& ident@ == payload.ident@
        },
        Ok(LoginResponse::LoginError(refusal)) => {
            &&& session matches Err(LoginFailure::Refused { message })
            &&& message@ == refusal.message@
        },
        Err(reason) => {
            &&& session matches Err(LoginFailure::Unreadable { error })
            &&& error@ == reason@
        },
    }
}

/// What the answer to a login yields. `answer` is the body as it was read,
/// or the reason why it could not be read as either shape.
pub fn login(answer: Result<LoginResponse, String>) -> (session: Result<
    TokenCredential,
    LoginFailure,
>)
    ensures
        login_yields(answer, session),
{
    match answer {
        Ok(LoginResponse::LoginPayload(payload)) => {
            let length = payload.ident.as_str().unicode_len();
            if length >= 2 {
                let id = String::from_str(payload.ident.as_str().substring_char(1, length - 1));
                Ok(TokenCredential { token: payload.token, tokenAP: payload.tokenAP, studentId: id })
            } else {
                Err(LoginFailure::ShortIdent { ident: payload.ident })
            }
        },
        Ok(LoginResponse::LoginError(refusal)) => Err(
            LoginFailure::Refused { message: refusal.message },
        ),
        Err(reason) => Err(LoginFailure::Unreadable { error: reason }),
    }
}

/// What a login yields whose answer holds `fits` under the two shapes of
/// such an answer; `error` says why it fits neither, if it fits neither.
pub fn login_from(fits: LoginFits, error: String) -> (session: Result<TokenCredential, LoginFailure>)
    ensures
        login_yields(
            match first_login_response(fits) {
                Some(answer) => Ok(answer),
                None => Err(error),
            },
            session,
        ),
{
    match LoginResponse::first_fit(fits) {
        Some(answer) => login(Ok(answer)),
        None => login(Err(error)),
    }
}

/// `url` with the student's identifier in place of every mark that stands
/// for it.
pub fn process_url(url: String, student_id: &str) -> (out: String)
    ensures
        out@ == replaced(url@, STUDENT_ID_MARK@, student_id@),
{
    replace(url.as_str(), STUDENT_ID_MARK, student_id)
}

/// The kind of answer that a request is made for.
#[derive(Clone, Copy, Debug, PartialEq, Eq, Structural)]
pub enum Endpoint {
    Grades,
    Absences,
    Agenda,
    Lessons,
}

/// A request that needs a session: what it asks for, and its address with
/// the mark still in the student's place.
#[derive(Debug)]
pub struct Request {
    pub endpoint: Endpoint,
    pub url: String,
}

/// Address of a student's grades.
pub open spec fn grades_url() -> Seq<char> {
    BASE_URL@ + "/students/<studentID>/grades"@
}

/// Address of a student's absences.
pub open spec fn absences_url() -> Seq<char> {
    BASE_URL@ + "/students/<studentID>/absences/details"@
}

/// Address of the agenda from the day `start` to the day `end`.
pub open spec fn agenda_url(start: Seq<char>, end: Seq<char>) -> Seq<char> {
    BASE_URL@ + "/students/<studentID>/agenda/all/"@ + start + "/"@ + end
}

/// Address of the lessons from the day `start` to the day `end`.
pub open spec fn lessons_url(start: Seq<char>, end: Seq<char>) -> Seq<char> {
    BASE_URL@ + "/students/<studentID>/lessons/"@ + start + "/"@ + end
}

/// The days that the agenda is asked for: the current range when no date is
/// chosen, next week's when the date is `nextweek`, else the chosen date
/// alone.
pub open spec fn agenda_range(selected: Option<Seq<char>>, today: int) -> Option<
    (Seq<char>, Seq<char>),
> {
    match selected {
        None => range_text(agenda_start(today), agenda_end(today)),
        Some(date) => if date == NEXT_WEEK@ {
            range_text(next_week_start(today), next_week_end(today))
        } else {
            Some((date, date))
        },
    }
}

/// The days that the lessons are asked for: the current week's range when no
/// date is chosen, else the chosen date alone.
pub open spec fn lessons_range(selected: Option<Seq<char>>, today: int) -> Option<
    (Seq<char>, Seq<char>),
> {
    match selected {
        None => range_text(lessons_start(today), lessons_end(today)),
        Some(date) => Some((date, date)),
    }
}

/// The request for the student's grades.
pub fn grades_request() -> (request: Request)
    ensures
        request.endpoint == Endpoint::Grades,
        request.url@ == grades_url(),
{
    let mut url = String::from_str(BASE_URL);
    url.append("/students/<studentID>/grades");
    Request { endpoint: Endpoint::Grades, url }
}

/// The request for the student's absences.
pub fn absences_request() -> (request: Request)
    ensures
        request.endpoint == Endpoint::Absences,
        request.url@ == absences_url(),
{
    let mut url = String::from_str(BASE_URL);
    url.append("/students/<studentID>/absences/details");
    Request { endpoint: Endpoint::Absences, url }
}

/// The address `head` followed by `start`, a slash and `end`.
fn ranged_url(head: &str, start: &str, end: &str) -> (url: String)
    ensures
        url@ == BASE_URL@ + head@ + start@ + "/"@ + end@,
{
    let mut url = String::from_str(BASE_URL);
    url.append(head);
    url.append(start);
    url.append("/");
    url.append(end);
    url
}

/// The request for the agenda on the days that `selected_date` chooses when
/// today is `today`. There is none where a range of days is wanted and
/// cannot be had as text.
pub fn agenda_request(selected_date: Option<String>, today: Day) -> (request: Option<Request>)
    ensures
        request is Some <==> agenda_range(optional_text(selected_date), today@) is Some,
        request matches Some(r) ==> {
            let range = agenda_range(optional_text(selected_date), today@)->0;
            r.endpoint == Endpoint::Agenda && r.url@ == agenda_url(range.0, range.1)
        },
{
    let range = match selected_date {
        None => get_current_agenda_week_date(today),
        Some(date) => if same_text(date.as_str(), NEXT_WEEK) {
            get_next_week_date(today)
        } else {
            Some((date.clone(), date))
        },
    };
    match range {
        Some((start, end)) => Some(
            Request {
                endpoint: Endpoint::Agenda,
                url: ranged_url("/students/<studentID>/agenda/all/", start.as_str(), end.as_str()),
            },
        ),
        None => None,
    }
}

/// The request for the lessons on the days that `selected_date` chooses
/// when today is `today`. There is none where a range of days is wanted and
/// cannot be had as text.
pub fn lessons_request(selected_date: Option<String>, today: Day) -> (request: Option<Request>)
    ensures
        request is Some <==> lessons_range(optional_text(selected_date), today@) is Some,
        request matches Some(r) ==> {
            let range = lessons_range(optional_text(selected_date), today@)->0;
            r.endpoint == Endpoint::Lessons && r.url@ == lessons_url(range.0, range.1)
        },
{
    let range = match selected_date {
        None => get_current_lessons_week_date(today),
        Some(date) => Some((date.clone(), date)),
    };
    match range {
        Some((start, end)) => Some(
            Request {
                endpoint: Endpoint::Lessons,
                url: ranged_url("/students/<studentID>/lessons/", start.as_str(), end.as_str()),
            },
        ),
        None => None,
    }
}

} // verus!
