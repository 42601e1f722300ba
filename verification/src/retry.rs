//! The life of one authenticated call.
//!
//! A call is a small machine. It is told what happened (an `Event`) and
//! answers with what to do next (an `Action`); it does no I/O itself. The
//! caller sends the requests, runs the login and reads the bodies.
//!
//! ```text
//! Start --Begin--> Issued --200--> Succeeded --Payload--> Finished
//!                    |  \--400--> BadRequest --Body--> Failed
//!                    |   \-other-> Failed
//!                    \--401--> Unauthorized --LoggedIn--> Issued, one attempt later
//! ```
//!
//! A call that would begin an attempt at the ceiling fails instead, and a
//! transport failure ends a call wherever it stands. Only a 401 leads to
//! another attempt.

use crate::error::{Error, ErrorView, OperationKind};
use crate::handicap::{
    Course, CourseView, GetCourse, GetCourseView, GetTeesResponse, GetTeesResponseView,
    GpaResponse, GpaResponseView, Pagination, PaginationView, SearchCourse, SearchCourseResponse,
    SearchCourseResponseView, SearchCourseView, SearchPlayer, SearchPlayerResponse,
    SearchPlayerResponseView, SearchPlayerView, SearchTee, SearchTeeView,
};
use crate::normalize::{
    course_from_lookup, course_of_lookup, courses_from_search, courses_of, gpa_response, players,
    players_of, tees_of, tees_response,
};
use crate::request::{
    get_course_request, get_course_request_of, get_tees_request, get_tees_request_of,
    request_gpa_request, request_gpa_request_of, search_course_request, search_course_request_of,
    search_player_request, search_player_request_of, Request, RequestView,
};
use crate::upstream::{
    CoursesResponse, CoursesResponseView, GetCourseResp, GetCourseRespView, GolfersResponse,
    GolfersResponseView, GpaPostResponse, GpaPostResponseView, TeesResponse, TeesResponseView,
};
use vstd::prelude::*;

verus! {

/// How many attempts a call may begin: the first one, and one more after a
/// fresh login.
pub const ATTEMPT_CEILING: u8 = 2;

/// What is asked of the provider, with all that the request needs.
#[derive(Clone, Debug, PartialEq, Eq)]
#[allow(inconsistent_fields)]
pub enum Operation {
    SearchPlayer { q: SearchPlayer, p: Pagination },
    GetCourse { q: GetCourse },
    SearchCourse { q: SearchCourse },
    GetTees { q: SearchTee },
    RequestGpa { id: String, email: String },
}

/// An `Operation` as specifications see it.
#[allow(inconsistent_fields)]
pub enum OperationView {
    SearchPlayer { q: SearchPlayerView, p: PaginationView },
    GetCourse { q: GetCourseView },
    SearchCourse { q: SearchCourseView },
    GetTees { q: SearchTeeView },
    RequestGpa { id: Seq<char>, email: Seq<char> },
}

impl View for Operation {
    type V = OperationView;

    open spec fn view(&self) -> OperationView {
        match self {
            Operation::SearchPlayer { q, p } => OperationView::SearchPlayer { q: q@, p: p@ },
            Operation::GetCourse { q } => OperationView::GetCourse { q: q@ },
            Operation::SearchCourse { q } => OperationView::SearchCourse { q: q@ },
            Operation::GetTees { q } => OperationView::GetTees { q: q@ },
            Operation::RequestGpa { id, email } => OperationView::RequestGpa {
                id: id@,
                email: email@,
            },
        }
    }
}

impl OperationView {
    pub open spec fn kind(self) -> OperationKind {
        match self {
            OperationView::SearchPlayer { .. } => OperationKind::SearchPlayer,
            OperationView::GetCourse { .. } => OperationKind::GetCourse,
            OperationView::SearchCourse { .. } => OperationKind::SearchCourse,
            OperationView::GetTees { .. } => OperationKind::GetTees,
            OperationView::RequestGpa { .. } => OperationKind::RequestGpa,
        }
    }

    /// The request of the operation, below the base address `url` and with
    /// `token` presented.
    pub open spec fn request(self, url: Seq<char>, token: Seq<char>) -> RequestView {
        match self {
            OperationView::SearchPlayer { q, p } => search_player_request_of(url, token, q, p),
            OperationView::GetCourse { q } => get_course_request_of(url, token, q),
            OperationView::SearchCourse { q } => search_course_request_of(url, token, q),
            OperationView::GetTees { q } => get_tees_request_of(url, token, q),
            OperationView::RequestGpa { id, email } => request_gpa_request_of(
                url,
                token,
                id,
                email,
            ),
        }
    }
}

impl Operation {
    pub fn kind(&self) -> (r: OperationKind)
        ensures
            r == self@.kind(),
    {
        match self {
            Operation::SearchPlayer { .. } => OperationKind::SearchPlayer,
            Operation::GetCourse { .. } => OperationKind::GetCourse,
            Operation::SearchCourse { .. } => OperationKind::SearchCourse,
            Operation::GetTees { .. } => OperationKind::GetTees,
            Operation::RequestGpa { .. } => OperationKind::RequestGpa,
        }
    }

    /// The request to send for this operation. It presents `token`, which the
    /// caller has read from the credential cell for this attempt.
    pub fn request(&self, url: &str, token: &str) -> (r: Request)
        ensures
            r@ == self@.request(url@, token@),
            r@.bearer == Some(token@),
    {
        match self {
            Operation::SearchPlayer { q, p } => search_player_request(url, token, q, p),
            Operation::GetCourse { q } => get_course_request(url, token, q),
            Operation::SearchCourse { q } => search_course_request(url, token, q),
            Operation::GetTees { q } => get_tees_request(url, token, q),
            Operation::RequestGpa { id, email } => request_gpa_request(
                url,
                token,
                id.as_str(),
                email.as_str(),
            ),
        }
    }
}

/// The decoded body of a 200 answer.
#[derive(Clone, Debug, PartialEq, Eq)]
pub enum Payload {
    Golfers(GolfersResponse),
    Course(GetCourseResp),
    Courses(CoursesResponse),
    Tees(TeesResponse),
    ProductAccess(GpaPostResponse),
}

/// A `Payload` as specifications see it.
pub enum PayloadView {
    Golfers(GolfersResponseView),
    Course(GetCourseRespView),
    Courses(CoursesResponseView),
    Tees(TeesResponseView),
    ProductAccess(GpaPostResponseView),
}

impl View for Payload {
    type V = PayloadView;

    open spec fn view(&self) -> PayloadView {
        match self {
            Payload::Golfers(b) => PayloadView::Golfers(b@),
            Payload::Course(b) => PayloadView::Course(b@),
            Payload::Courses(b) => PayloadView::Courses(b@),
            Payload::Tees(b) => PayloadView::Tees(b@),
            Payload::ProductAccess(b) => PayloadView::ProductAccess(b@),
        }
    }
}

/// What a call returns when it succeeds.
#[derive(Clone, Debug, PartialEq, Eq)]
pub enum Output {
    Players(SearchPlayerResponse),
    Course(Course),
    Courses(SearchCourseResponse),
    Tees(GetTeesResponse),
    ProductAccess(GpaResponse),
}

/// An `Output` as specifications see it.
pub enum OutputView {
    Players(SearchPlayerResponseView),
    Course(CourseView),
    Courses(SearchCourseResponseView),
    Tees(GetTeesResponseView),
    ProductAccess(GpaResponseView),
}

impl View for Output {
    type V = OutputView;

    open spec fn view(&self) -> OutputView {
        match self {
            Output::Players(r) => OutputView::Players(r@),
            Output::Course(r) => OutputView::Course(r@),
            Output::Courses(r) => OutputView::Courses(r@),
            Output::Tees(r) => OutputView::Tees(r@),
            Output::ProductAccess(r) => OutputView::ProductAccess(r@),
        }
    }
}

/// What the operation makes of a body, where the body is of the shape that
/// the operation's endpoint sends; `None` where it is of another shape.
pub open spec fn normalized(op: OperationView, body: PayloadView) -> Option<
    Result<OutputView, ErrorView>,
> {
    match (op, body) {
        (OperationView::SearchPlayer { q, p }, PayloadView::Golfers(b)) => Some(
            match players_of(q, b.golfers) {
                Ok(found) => Ok(OutputView::Players(found)),
                Err(e) => Err(e),
            },
        ),
        (OperationView::GetCourse { q }, PayloadView::Course(b)) => Some(
            Ok(OutputView::Course(course_of_lookup(b))),
        ),
        (OperationView::SearchCourse { q }, PayloadView::Courses(b)) => Some(
            Ok(OutputView::Courses(courses_of(b.courses))),
        ),
        (OperationView::GetTees { q }, PayloadView::Tees(b)) => Some(
            Ok(OutputView::Tees(GetTeesResponseView { tees: tees_of(b.TeeSets) })),
        ),
        (OperationView::RequestGpa { id, email }, PayloadView::ProductAccess(b)) => Some(
            Ok(OutputView::ProductAccess(GpaResponseView { success: b.success })),
        ),
        _ => None,
    }
}

/// The view of what `normalize` returns.
pub open spec fn normalized_view(r: Option<Result<Output, Error>>) -> Option<
    Result<OutputView, ErrorView>,
> {
    match r {
        Some(Ok(o)) => Some(Ok(o@)),
        Some(Err(e)) => Some(Err(e@)),
        None => None,
    }
}

/// Hands a decoded body to the operation's normalizer. A body of the wrong
/// shape is handed back to nobody: the answer is `None`.
pub fn normalize(op: &Operation, body: Payload) -> (r: Option<Result<Output, Error>>)
    ensures
        normalized_view(r) == normalized(op@, body@),
{
    match op {
        Operation::SearchPlayer { q, p } => match body {
            Payload::Golfers(b) => Some(
                match players(q, &b.golfers) {
                    Ok(found) => Ok(Output::Players(found)),
                    Err(e) => Err(e),
                },
            ),
            _ => None,
        },
        Operation::GetCourse { q } => match body {
            Payload::Course(b) => Some(Ok(Output::Course(course_from_lookup(&b)))),
            _ => None,
        },
        Operation::SearchCourse { q } => match body {
            Payload::Courses(b) => Some(Ok(Output::Courses(courses_from_search(&b.courses)))),
            _ => None,
        },
        Operation::GetTees { q } => match body {
            Payload::Tees(b) => Some(Ok(Output::Tees(tees_response(&b.TeeSets)))),
            _ => None,
        },
        Operation::RequestGpa { id, email } => match body {
            Payload::ProductAccess(b) => Some(Ok(Output::ProductAccess(gpa_response(b)))),
            _ => None,
        },
    }
}

/// Where a call stands.
#[derive(Clone, Copy, Debug, PartialEq, Eq)]
pub enum Phase {
    /// Nothing has been sent for this attempt.
    Start,
    /// The request is out; the status is awaited.
    Issued,
    /// The provider refused the token; the login is awaited.
    Unauthorized,
    /// The provider answered 400; the text of its body is awaited.
    BadRequest,
    /// The provider answered 200; the decoded body is awaited.
    Succeeded,
    /// The call has returned its result.
    Finished,
    /// The call has failed.
    Failed,
}

/// What the caller reports to a call.
#[derive(Clone, Debug, PartialEq, Eq)]
pub enum Event {
    /// The caller is ready to send.
    Begin,
    /// The provider answered with this status.
    Status(u16),
    /// The login went through and the credential cell holds the new token.
    LoggedIn,
    /// The text of the body of a 400 answer.
    Body(String),
    /// The decoded body of a 200 answer.
    Payload(Payload),
    /// The network failed, or a body could not be read or decoded, in the
    /// request or in the login.
    Transport(String),
}

/// An `Event` as specifications see it.
pub enum EventView {
    Begin,
    Status(u16),
    LoggedIn,
    Body(Seq<char>),
    Payload(PayloadView),
    Transport(Seq<char>),
}

impl View for Event {
    type V = EventView;

    open spec fn view(&self) -> EventView {
        match self {
            Event::Begin => EventView::Begin,
            Event::Status(s) => EventView::Status(*s),
            Event::LoggedIn => EventView::LoggedIn,
            Event::Body(t) => EventView::Body(t@),
            Event::Payload(b) => EventView::Payload(b@),
            Event::Transport(m) => EventView::Transport(m@),
        }
    }
}

/// What a call asks of the caller.
#[derive(Clone, Debug, PartialEq, Eq)]
pub enum Action {
    /// Read the credential cell, send the operation's request, report the
    /// status.
    Issue,
    /// Run the login, write the token into the credential cell, report
    /// `LoggedIn`.
    Login,
    /// Decode the body of the answer, report it as `Payload`.
    Decode,
    /// Read the body of the answer as text, report it as `Body`.
    Diagnose,
    /// Hand this result to whoever made the call.
    Return(Output),
    /// Hand this error to whoever made the call.
    Fail(Error),
}

/// An `Action` as specifications see it.
pub enum ActionView {
    Issue,
    Login,
    Decode,
    Diagnose,
    Return(OutputView),
    Fail(ErrorView),
}

impl View for Action {
    type V = ActionView;

    open spec fn view(&self) -> ActionView {
        match self {
            Action::Issue => ActionView::Issue,
            Action::Login => ActionView::Login,
            Action::Decode => ActionView::Decode,
            Action::Diagnose => ActionView::Diagnose,
            Action::Return(o) => ActionView::Return(o@),
            Action::Fail(e) => ActionView::Fail(e@),
        }
    }
}

/// One call: the operation, the attempts that lie behind it, and where it
/// stands.
#[derive(Clone, Debug, PartialEq, Eq)]
pub struct Call {
    operation: Operation,
    attempts: u8,
    phase: Phase,
}

/// A `Call` as specifications see it.
pub struct CallView {
    pub operation: OperationView,
    pub attempts: u8,
    pub phase: Phase,
}

impl View for Call {
    type V = CallView;

    closed spec fn view(&self) -> CallView {
        CallView { operation: self.operation@, attempts: self.attempts, phase: self.phase }
    }
}

impl CallView {
    /// Whether nothing more will come of the call.
    pub open spec fn is_over(self) -> bool {
        self.phase == Phase::Finished || self.phase == Phase::Failed
    }

    /// The call with `attempts` attempts behind it, about to begin the next
    /// one: at the ceiling it fails, below it the request goes out.
    pub open spec fn enter(self, attempts: u8) -> (CallView, ActionView) {
        if attempts >= ATTEMPT_CEILING {
            (
                CallView { attempts: attempts, phase: Phase::Failed, ..self },
                ActionView::Fail(ErrorView::RetryExhausted { operation: self.operation.kind() }),
            )
        } else {
            (CallView { attempts: attempts, phase: Phase::Issued, ..self }, ActionView::Issue)
        }
    }

    /// The call with an error as its end.
    pub open spec fn fail(self, e: ErrorView) -> (CallView, ActionView) {
        (CallView { phase: Phase::Failed, ..self }, ActionView::Fail(e))
    }

    /// What the call makes of a status.
    pub open spec fn on_status(self, status: u16) -> (CallView, ActionView) {
        if status == 200 {
            (CallView { phase: Phase::Succeeded, ..self }, ActionView::Decode)
        } else if status == 401 {
            (CallView { phase: Phase::Unauthorized, ..self }, ActionView::Login)
        } else if status == 400 {
            (CallView { phase: Phase::BadRequest, ..self }, ActionView::Diagnose)
        } else {
            self.fail(
                ErrorView::UnknownUpstreamStatus {
                    operation: self.operation.kind(),
                    status: status,
                },
            )
        }
    }

    /// Whether the call is waiting for the caller to come back from the
    /// network: with a status, with a login or with a body.
    pub open spec fn in_flight(self) -> bool {
        self.phase == Phase::Issued || self.phase == Phase::Unauthorized || self.phase
            == Phase::BadRequest || self.phase == Phase::Succeeded
    }

    /// The call after an event, and the action that it answers with; `None`
    /// where the call, as it stands, does not await the event.
    pub open spec fn step(self, event: EventView) -> Option<(CallView, ActionView)> {
        match event {
            EventView::Begin => if self.phase == Phase::Start {
                Some(self.enter(self.attempts))
            } else {
                None
            },
            EventView::Status(status) => if self.phase == Phase::Issued {
                Some(self.on_status(status))
            } else {
                None
            },
            EventView::LoggedIn => if self.phase == Phase::Unauthorized {
                Some(
                    if self.attempts >= ATTEMPT_CEILING {
                        self.enter(self.attempts)
                    } else {
                        self.enter((self.attempts + 1) as u8)
                    },
                )
            } else {
                None
            },
            EventView::Body(text) => if self.phase == Phase::BadRequest {
                Some(
                    self.fail(
                        ErrorView::BadRequest { operation: self.operation.kind(), body: text },
                    ),
                )
            } else {
                None
            },
            EventView::Payload(body) => if self.phase == Phase::Succeeded {
                match normalized(self.operation, body) {
                    Some(Ok(output)) => Some(
                        (CallView { phase: Phase::Finished, ..self }, ActionView::Return(output)),
                    ),
                    Some(Err(e)) => Some(self.fail(e)),
                    None => None,
                }
            } else {
                None
            },
            EventView::Transport(message) => if self.in_flight() {
                Some(self.fail(ErrorView::TransportError { message: message }))
            } else {
                None
            },
        }
    }
}

impl Call {
    /// A call of `operation` that has `attempts` attempts behind it (none,
    /// unless the caller knows better). Nothing has been sent yet.
    pub fn new(operation: Operation, attempts: u8) -> (r: Call)
        ensures
            r@ == fresh(operation@, attempts),
    {
        Call { operation, attempts, phase: Phase::Start }
    }

    pub fn operation(&self) -> (r: &Operation)
        ensures
            r@ == self@.operation,
    {
        &self.operation
    }

    /// The attempts that lie behind the call.
    pub fn attempts(&self) -> (r: u8)
        ensures
            r == self@.attempts,
    {
        self.attempts
    }

    pub fn phase(&self) -> (r: Phase)
        ensures
            r == self@.phase,
    {
        self.phase
    }

    fn enter(&mut self, attempts: u8) -> (r: Action)
        ensures
            (final(self)@, r@) == old(self)@.enter(attempts),
    {
        self.attempts = attempts;
        if attempts >= ATTEMPT_CEILING {
            self.phase = Phase::Failed;
            Action::Fail(Error::RetryExhausted { operation: self.operation.kind() })
        } else {
            self.phase = Phase::Issued;
            Action::Issue
        }
    }

    fn fail(&mut self, e: Error) -> (r: Action)
        ensures
            (final(self)@, r@) == old(self)@.fail(e@),
    {
        self.phase = Phase::Failed;
        Action::Fail(e)
    }

    fn on_status(&mut self, status: u16) -> (r: Action)
        ensures
            (final(self)@, r@) == old(self)@.on_status(status),
    {
        if status == 200 {
            self.phase = Phase::Succeeded;
            Action::Decode
        } else if status == 401 {
            self.phase = Phase::Unauthorized;
            Action::Login
        } else if status == 400 {
            self.phase = Phase::BadRequest;
            Action::Diagnose
        } else {
            let operation = self.operation.kind();
            self.fail(Error::UnknownUpstreamStatus { operation, status })
        }
    }

    /// Tells the call what happened and learns what to do next. An event that
    /// the call does not await, as it stands, changes nothing and is answered
    /// with `None`: so is every event once the call is over.
    pub fn step(&mut self, event: Event) -> (r: Option<Action>)
        ensures
            match old(self)@.step(event@) {
                Some((next, action)) => r matches Some(a) && a@ == action && final(self)@ == next,
                None => final(self)@ == old(self)@ && r is None,
            },
    {
        match self.phase {
            Phase::Start => match event {
                Event::Begin => {
                    let attempts = self.attempts;
                    Some(self.enter(attempts))
                },
                _ => None,
            },
            Phase::Issued => match event {
                Event::Status(status) => Some(self.on_status(status)),
                Event::Transport(message) => Some(self.fail(Error::TransportError { message })),
                _ => None,
            },
            Phase::Unauthorized => match event {
                Event::LoggedIn => {
                    let attempts = if self.attempts >= ATTEMPT_CEILING {
                        self.attempts
                    } else {
                        self.attempts + 1
                    };
                    Some(self.enter(attempts))
                },
                Event::Transport(message) => Some(self.fail(Error::TransportError { message })),
                _ => None,
            },
            Phase::BadRequest => match event {
                Event::Body(body) => {
                    let operation = self.operation.kind();
                    Some(self.fail(Error::BadRequest { operation, body }))
                },
                Event::Transport(message) => Some(self.fail(Error::TransportError { message })),
                _ => None,
            },
            Phase::Succeeded => match event {
                Event::Payload(body) => match normalize(&self.operation, body) {
                    Some(Ok(output)) => {
                        self.phase = Phase::Finished;
                        Some(Action::Return(output))
                    },
                    Some(Err(e)) => Some(self.fail(e)),
                    None => None,
                },
                Event::Transport(message) => Some(self.fail(Error::TransportError { message })),
                _ => None,
            },
            Phase::Finished => None,
            Phase::Failed => None,
        }
    }
}

/// The call after a sequence of events, and the actions that it answered
/// with, in their order. An event that was not awaited leaves no trace.
pub open spec fn run(c: CallView, events: Seq<EventView>) -> (CallView, Seq<ActionView>)
    decreases events.len(),
{
    if events.len() == 0 {
        (c, Seq::empty())
    } else {
        match c.step(events.first()) {
            Some((next, action)) => {
                let rest = run(next, events.drop_first());
                (rest.0, seq![action] + rest.1)
            },
            None => run(c, events.drop_first()),
        }
    }
}

/// The call of `op` with `attempts` attempts behind it and nothing sent.
pub open spec fn fresh(op: OperationView, attempts: u8) -> CallView {
    CallView { operation: op, attempts: attempts, phase: Phase::Start }
}

/// How many requests the actions send.
pub open spec fn issues(actions: Seq<ActionView>) -> nat
    decreases actions.len(),
{
    if actions.len() == 0 {
        0
    } else {
        issues(actions.drop_first()) + if actions.first() is Issue {
            1nat
        } else {
            0nat
        }
    }
}

/// How many logins the actions run.
pub open spec fn logins(actions: Seq<ActionView>) -> nat
    decreases actions.len(),
{
    if actions.len() == 0 {
        0
    } else {
        logins(actions.drop_first()) + if actions.first() is Login {
            1nat
        } else {
            0nat
        }
    }
}

/// What a call answers with when the decoded body has been normalized.
pub open spec fn conclusion(r: Result<OutputView, ErrorView>) -> ActionView {
    match r {
        Ok(output) => ActionView::Return(output),
        Err(e) => ActionView::Fail(e),
    }
}

proof fn run_unfold(c: CallView, e: EventView, rest: Seq<EventView>)
    ensures
        run(c, seq![e] + rest) == match c.step(e) {
            Some((next, action)) => (run(next, rest).0, seq![action] + run(next, rest).1),
            None => run(c, rest),
        },
{
    let events = seq![e] + rest;
    assert(events.drop_first() =~= rest);
}

proof fn count_unfold(a: ActionView, rest: Seq<ActionView>)
    ensures
        issues(seq![a] + rest) == issues(rest) + if a is Issue {
            1nat
        } else {
            0nat
        },
        logins(seq![a] + rest) == logins(rest) + if a is Login {
            1nat
        } else {
            0nat
        },
{
    let all = seq![a] + rest;
    assert(all.drop_first() =~= rest);
}

/// A call that is over stays as it is, whatever it is told, and asks for
/// nothing more.
pub proof fn over_is_over(c: CallView, events: Seq<EventView>)
    requires
        c.is_over(),
    ensures
        run(c, events) == (c, Seq::<ActionView>::empty()),
    decreases events.len(),
{
    if events.len() > 0 {
        over_is_over(c, events.drop_first());
    }
}

/// A call whose token is refused twice in a row sends two requests and runs
/// two logins; then it fails for want of attempts. No third request is sent,
/// whatever the call is told afterwards.
pub proof fn two_refusals_exhaust(op: OperationView, later: Seq<EventView>)
    ensures
        run(
            fresh(op, 0),
            seq![
                EventView::Begin,
                EventView::Status(401),
                EventView::LoggedIn,
                EventView::Status(401),
                EventView::LoggedIn,
            ] + later,
        ) == (
            CallView { operation: op, attempts: ATTEMPT_CEILING, phase: Phase::Failed },
            seq![
                ActionView::Issue,
                ActionView::Login,
                ActionView::Issue,
                ActionView::Login,
                ActionView::Fail(ErrorView::RetryExhausted { operation: op.kind() }),
            ],
        ),
{
    let e4 = later;
    let e3 = seq![EventView::LoggedIn] + e4;
    let e2 = seq![EventView::Status(401)] + e3;
    let e1 = seq![EventView::LoggedIn] + e2;
    let e0 = seq![EventView::Status(401)] + e1;
    let all = seq![EventView::Begin] + e0;
    assert(all =~= seq![
        EventView::Begin,
        EventView::Status(401),
        EventView::LoggedIn,
        EventView::Status(401),
        EventView::LoggedIn,
    ] + later);
    let c0 = fresh(op, 0);
    let c1 = CallView { phase: Phase::Issued, ..c0 };
    let c2 = CallView { phase: Phase::Unauthorized, ..c0 };
    let c3 = CallView { attempts: 1, phase: Phase::Issued, ..c0 };
    let c4 = CallView { attempts: 1, phase: Phase::Unauthorized, ..c0 };
    let c5 = CallView { attempts: 2, phase: Phase::Failed, ..c0 };
    run_unfold(c0, EventView::Begin, e0);
    run_unfold(c1, EventView::Status(401), e1);
    run_unfold(c2, EventView::LoggedIn, e2);
    run_unfold(c3, EventView::Status(401), e3);
    run_unfold(c4, EventView::LoggedIn, e4);
    over_is_over(c5, later);
}

/// A call whose token is refused once and accepted after the login sends two
/// requests and runs one login; its result is what the operation's normalizer
/// makes of the body of the accepted request.
pub proof fn one_refusal_then_success(op: OperationView, body: PayloadView, later: Seq<EventView>)
    requires
        normalized(op, body) is Some,
    ensures
        run(
            fresh(op, 0),
            seq![
                EventView::Begin,
                EventView::Status(401),
                EventView::LoggedIn,
                EventView::Status(200),
                EventView::Payload(body),
            ] + later,
        ).1 == seq![
            ActionView::Issue,
            ActionView::Login,
            ActionView::Issue,
            ActionView::Decode,
            conclusion(normalized(op, body)->0),
        ],
        run(
            fresh(op, 0),
            seq![
                EventView::Begin,
                EventView::Status(401),
                EventView::LoggedIn,
                EventView::Status(200),
                EventView::Payload(body),
            ] + later,
        ).0.attempts == 1,
{
    let e4 = later;
    let e3 = seq![EventView::Payload(body)] + e4;
    let e2 = seq![EventView::Status(200)] + e3;
    let e1 = seq![EventView::LoggedIn] + e2;
    let e0 = seq![EventView::Status(401)] + e1;
    let all = seq![EventView::Begin] + e0;
    assert(all =~= seq![
        EventView::Begin,
        EventView::Status(401),
        EventView::LoggedIn,
        EventView::Status(200),
        EventView::Payload(body),
    ] + later);
    let c0 = fresh(op, 0);
    let c1 = CallView { phase: Phase::Issued, ..c0 };
    let c2 = CallView { phase: Phase::Unauthorized, ..c0 };
    let c3 = CallView { attempts: 1, phase: Phase::Issued, ..c0 };
    let c4 = CallView { attempts: 1, phase: Phase::Succeeded, ..c0 };
    run_unfold(c0, EventView::Begin, e0);
    run_unfold(c1, EventView::Status(401), e1);
    run_unfold(c2, EventView::LoggedIn, e2);
    run_unfold(c3, EventView::Status(200), e3);
    run_unfold(c4, EventView::Payload(body), e4);
    let last = c4.step(EventView::Payload(body)).unwrap();
    let c5 = last.0;
    over_is_over(c5, later);
}

/// The requests that a call may still send, as it stands.
spec fn budget(c: CallView) -> nat {
    match c.phase {
        Phase::Start => if c.attempts < ATTEMPT_CEILING {
            (ATTEMPT_CEILING - c.attempts) as nat
        } else {
            0
        },
        Phase::Issued | Phase::Unauthorized => if c.attempts < ATTEMPT_CEILING {
            (ATTEMPT_CEILING - c.attempts - 1) as nat
        } else {
            0
        },
        _ => 0,
    }
}

/// The logins that a call may still run beyond the requests that it may still
/// send: one while a request is out, none otherwise.
spec fn owed(c: CallView) -> nat {
    match c.phase {
        Phase::Issued => 1,
        _ => 0,
    }
}

proof fn run_is_bounded(c: CallView, events: Seq<EventView>)
    ensures
        issues(run(c, events).1) <= budget(c),
        logins(run(c, events).1) <= issues(run(c, events).1) + owed(c),
        run(c, events).0.attempts >= c.attempts,
        c.attempts <= ATTEMPT_CEILING ==> run(c, events).0.attempts <= ATTEMPT_CEILING,
        run(c, events).0.operation == c.operation,
    decreases events.len(),
{
    if events.len() > 0 {
        match c.step(events.first()) {
            Some((next, action)) => {
                run_is_bounded(next, events.drop_first());
                count_unfold(action, run(next, events.drop_first()).1);
            },
            None => {
                run_is_bounded(c, events.drop_first());
            },
        }
    }
}

/// Whatever a call is told, it sends no more requests than the ceiling leaves
/// it (none at all where it starts at the ceiling), it runs no more logins
/// than it sends requests, and the count of its attempts never goes down and
/// never passes the ceiling from below.
pub proof fn attempts_are_bounded(op: OperationView, attempts: u8, events: Seq<EventView>)
    ensures
        attempts >= ATTEMPT_CEILING ==> issues(run(fresh(op, attempts), events).1) == 0,
        issues(run(fresh(op, attempts), events).1) + attempts <= ATTEMPT_CEILING || issues(
            run(fresh(op, attempts), events).1,
        ) == 0,
        logins(run(fresh(op, attempts), events).1) <= issues(run(fresh(op, attempts), events).1),
        run(fresh(op, attempts), events).0.attempts >= attempts,
        attempts <= ATTEMPT_CEILING ==> run(fresh(op, attempts), events).0.attempts
            <= ATTEMPT_CEILING,
{
    run_is_bounded(fresh(op, attempts), events);
}

/// Only a refused token leads to a login, and only the start of a call or a
/// login that went through leads to a request: no other status, no transport
/// failure and no body is ever answered with another attempt.
pub proof fn only_a_refusal_retries(c: CallView, event: EventView)
    ensures
        c.step(event) matches Some((next, action)) ==> {
            &&& action is Login ==> c.phase == Phase::Issued && event == EventView::Status(401)
            &&& action is Issue ==> (c.phase == Phase::Start && event == EventView::Begin) || (
            c.phase == Phase::Unauthorized && event == EventView::LoggedIn)
            &&& action is Issue ==> next.attempts < ATTEMPT_CEILING
            &&& event is Transport ==> action == ActionView::Fail(
                ErrorView::TransportError { message: event->Transport_0 },
            )
            &&& (action is Return || action is Fail) <==> next.is_over()
        },
{
}

/// Of all that the normalizers are given, only a search for one golfer that
/// found no row ends in an error.
pub proof fn only_an_empty_lookup_fails(op: OperationView, body: PayloadView)
    ensures
        normalized(op, body) matches Some(Err(e)) ==> {
            &&& e == ErrorView::EmptyResult
            &&& op matches OperationView::SearchPlayer { q, p }
            &&& q.golfer_id.len() > 0
            &&& body matches PayloadView::Golfers(b)
            &&& b.golfers.len() == 0
        },
{
}

} // verus!
