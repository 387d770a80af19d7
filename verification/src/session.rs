//! The course of an authenticated request.
//!
//! Sending and receiving is the caller's part. The caller reports what
//! happened as an `Event`, and `Session::step` answers with the `Action` to
//! take next: log in, send the request, hand the answer out, or give up.
//! A request goes out only with a session token; when the server answers
//! that the token has expired, a login follows and the same request goes out
//! again with the new token.

use crate::api::{process_url, Endpoint, Request, TokenCredential, STUDENT_ID_MARK};
use crate::response_types::{first_response, ResponseFits, ResponseResult};
use crate::text::replaced;
use vstd::prelude::*;

verus! {

/// The session token that the process holds, if it holds one.
#[derive(Debug)]
pub struct Session {
    pub token: Option<TokenCredential>,
}

/// What the caller reports.
#[derive(Debug)]
pub enum Event {
    /// Nothing yet: the request is to be started.
    Start,
    /// A login gave this token.
    LoggedIn(TokenCredential),
    /// The server answered the request with `body`, which was read as
    /// `parsed`: one of the known shapes, or the reason why it fits none.
    Answered { body: String, parsed: Result<ResponseResult, String> },
}

/// How an answer is read: as the first shape that its body fits, or as
/// `error` where it fits none.
pub open spec fn read_as(fits: ResponseFits, error: String) -> Result<ResponseResult, String> {
    match first_response(fits) {
        Some(answer) => Ok(answer),
        None => Err(error),
    }
}

impl Event {
    /// The report that the server answered with `body`, which holds `fits`
    /// under the shapes of an answer; `error` says why it fits none, if it
    /// fits none.
    pub fn answered(body: String, fits: ResponseFits, error: String) -> (event: Event)
        ensures
            event == (Event::Answered { body, parsed: read_as(fits, error) }),
    {
        let parsed = match ResponseResult::first_fit(fits) {
            Some(answer) => Ok(answer),
            None => Err(error),
        };
        Event::Answered { body, parsed }
    }
}

/// Why a request is given up.
#[derive(Debug)]
pub enum Failure {
    /// The answer fits none of the known shapes.
    Unreadable { error: String, body: String },
    /// The answer has a known shape, but not the one asked for.
    Unexpected { body: String },
}

/// What the caller is to do next.
#[derive(Debug)]
pub enum Action {
    /// Log in, then report `Event::LoggedIn`.
    Login,
    /// Send a GET to `url` with `token` as the authentication header, then
    /// report `Event::Answered`.
    Get { url: String, token: String },
    /// The request is done: this is its answer.
    Deliver(ResponseResult),
    /// The request is given up.
    Fail(Failure),
}

/// Whether `answer` has the shape that `endpoint` is asked for.
pub open spec fn answers(endpoint: Endpoint, answer: ResponseResult) -> bool {
    match (endpoint, answer) {
        (Endpoint::Grades, ResponseResult::Grades(_)) => true,
        (Endpoint::Absences, ResponseResult::Absences(_)) => true,
        (Endpoint::Agenda, ResponseResult::Agendas(_)) => true,
        (Endpoint::Lessons, ResponseResult::Lessons(_)) => true,
        _ => false,
    }
}

/// The address to which `request` goes for the student `student_id`.
pub open spec fn sent_url(request: Request, student_id: Seq<char>) -> Seq<char> {
    replaced(request.url@, STUDENT_ID_MARK@, student_id)
}

/// Whether `action` sends `request` under `token`.
pub open spec fn sends(action: Action, request: Request, token: TokenCredential) -> bool {
    &&& action matches Action::Get { url, token: header }
    &&& url@ == sent_url(request, token.studentId@)
    &&& header@ == token.token@
}

/// Whether `action` is what follows `event` for `request` when the session
/// holds `held`.
pub open spec fn follows(
    action: Action,
    held: Option<TokenCredential>,
    request: Request,
    event: Event,
) -> bool {
    match event {
        Event::Start => match held {
            Some(token) => sends(action, request, token),
            None => action is Login,
        },
        Event::LoggedIn(token) => sends(action, request, token),
        Event::Answered { body, parsed } => match parsed {
            Ok(ResponseResult::ExpiredToken(_)) => action is Login,
            Ok(answer) => if answers(request.endpoint, answer) {
                action == Action::Deliver(answer)
            } else {
                &&& action matches Action::Fail(Failure::Unexpected { body: shown })
                &&& shown@ == body@
            },
            Err(reason) => {
                &&& action matches Action::Fail(Failure::Unreadable { error, body: shown })
                &&& error@ == reason@
                &&& shown@ == body@
            },
        },
    }
}

/// The token that the session holds after `event`: the one that a login
/// gave, else the one held before.
pub open spec fn held_after(held: Option<TokenCredential>, event: Event) -> Option<
    TokenCredential,
> {
    match event {
        Event::LoggedIn(token) => Some(token),
        _ => held,
    }
}

impl Session {
    /// A session with the token that was kept from an earlier run, if any.
    pub fn new(token: Option<TokenCredential>) -> (session: Session)
        ensures
            session.token == token,
    {
        Session { token }
    }

    /// The request `request` under `token`.
    fn get(request: &Request, token: &TokenCredential) -> (action: Action)
        ensures
            sends(action, *request, *token),
    {
        Action::Get {
            url: process_url(request.url.clone(), token.studentId.as_str()),
            token: token.token.clone(),
        }
    }

    /// Takes in `event` and says what to do next for `request`.
    ///
    /// At the start the request is sent if a token is held, and a login is
    /// asked for if none is. A token from a login replaces the one held, and
    /// the request is sent under it. An answer that says the token has
    /// expired asks for a login; one of the shape asked for is handed out;
    /// any other, and one that could not be read, ends the request in
    /// failure.
    pub fn step(&mut self, request: &Request, event: Event) -> (action: Action)
        ensures
            final(self).token == held_after(old(self).token, event),
            follows(action, old(self).token, *request, event),
    {
        match event {
            Event::Start => match &self.token {
                Some(token) => Session::get(request, token),
                None => Action::Login,
            },
            Event::LoggedIn(token) => {
                let action = Session::get(request, &token);
                self.token = Some(token);
                action
            },
            Event::Answered { body, parsed } => match parsed {
                Ok(ResponseResult::ExpiredToken(_)) => Action::Login,
                Ok(answer) => {
                    let wanted = match (&request.endpoint, &answer) {
                        (Endpoint::Grades, ResponseResult::Grades(_)) => true,
                        (Endpoint::Absences, ResponseResult::Absences(_)) => true,
                        (Endpoint::Agenda, ResponseResult::Agendas(_)) => true,
                        (Endpoint::Lessons, ResponseResult::Lessons(_)) => true,
                        _ => false,
                    };
                    if wanted {
                        Action::Deliver(answer)
                    } else {
                        Action::Fail(Failure::Unexpected { body })
                    }
                },
                Err(reason) => Action::Fail(Failure::Unreadable { error: reason, body }),
            },
        }
    }
}

/// After a login the request goes out again as it was first asked for: to
/// the address of the first attempt but for the student's identifier, which
/// is the new token's, and with the new token as its header. Where the new
/// token names the same student, the two addresses are the same.
pub proof fn lemma_retry_repeats_request(
    request: Request,
    first: TokenCredential,
    renewed: TokenCredential,
    attempt: Action,
    retry: Action,
)
    requires
        follows(attempt, Some(first), request, Event::Start),
        follows(retry, Some(first), request, Event::LoggedIn(renewed)),
    ensures
        attempt matches Action::Get { url, token } && url@ == sent_url(request, first.studentId@)
            && token@ == first.token@,
        retry matches Action::Get { url, token } && url@ == sent_url(request, renewed.studentId@)
            && token@ == renewed.token@,
        first.studentId@ == renewed.studentId@ ==> attempt->url@ == retry->url@,
        held_after(Some(first), Event::LoggedIn(renewed)) == Some(renewed),
{
}

/// A body that fits no shape ends the request in failure, whatever was asked
/// for and whatever token is held.
pub proof fn lemma_unfit_body_fails(
    held: Option<TokenCredential>,
    request: Request,
    body: String,
    fits: ResponseFits,
    error: String,
    action: Action,
)
    requires
        fits.expired_token is None,
        fits.grades is None,
        fits.absences is None,
        fits.agendas is None,
        fits.lessons is None,
        follows(action, held, request, Event::Answered { body, parsed: read_as(fits, error) }),
    ensures
        action matches Action::Fail(Failure::Unreadable { error: shown, body: kept })
            && shown@ == error@ && kept@ == body@,
{
}

/// An answer is handed out only if it has the shape asked for; every other
/// answer but the notice of expiry, and every answer that could not be read,
/// ends the request in failure.
pub proof fn lemma_answers_are_classified(
    held: Option<TokenCredential>,
    request: Request,
    body: String,
    parsed: Result<ResponseResult, String>,
    action: Action,
)
    requires
        follows(action, held, request, Event::Answered { body, parsed }),
    ensures
        action is Deliver <==> parsed is Ok && answers(request.endpoint, parsed->Ok_0),
        action is Login <==> parsed is Ok && parsed->Ok_0 is ExpiredToken,
        action is Fail <==> !(action is Deliver) && !(action is Login),
        action is Deliver ==> action->Deliver_0 == parsed->Ok_0,
        parsed is Err ==> action matches Action::Fail(Failure::Unreadable { .. }),
        !(action is Get),
{
}

} // verus!
