//! What can go wrong with a call, and the message that the caller is shown.

use vstd::prelude::*;
use vstd::string::*;

verus! {

/// The operations that the provider offers behind its login.
#[derive(Clone, Copy, Debug, PartialEq, Eq)]
pub enum OperationKind {
    SearchPlayer,
    GetCourse,
    SearchCourse,
    GetTees,
    RequestGpa,
}

impl OperationKind {
    /// The name by which messages refer to the operation.
    pub open spec fn name_spec(self) -> Seq<char> {
        match self {
            OperationKind::SearchPlayer => "search_player"@,
            OperationKind::GetCourse => "get_course"@,
            OperationKind::SearchCourse => "search_course"@,
            OperationKind::GetTees => "get_tees"@,
            OperationKind::RequestGpa => "request_gpa"@,
        }
    }

    /// What is said when the operation has used up its attempts.
    pub open spec fn exhausted_spec(self) -> Seq<char> {
        match self {
            OperationKind::SearchPlayer => "Too many unsuccessful attempts to get GHIN handicap."@,
            OperationKind::GetCourse => "Too many unsuccessful attempts to get course."@,
            OperationKind::SearchCourse => "Too many unsuccessful attempts to search course."@,
            OperationKind::GetTees => "Too many unsuccessful attempts to search course."@,
            OperationKind::RequestGpa => "Too many unsuccessful attempts to request_gpa."@,
        }
    }

    pub fn name(self) -> (r: &'static str)
        ensures
            r@ == self.name_spec(),
    {
        match self {
            OperationKind::SearchPlayer => "search_player",
            OperationKind::GetCourse => "get_course",
            OperationKind::SearchCourse => "search_course",
            OperationKind::GetTees => "get_tees",
            OperationKind::RequestGpa => "request_gpa",
        }
    }

    fn exhausted(self) -> (r: &'static str)
        ensures
            r@ == self.exhausted_spec(),
    {
        match self {
            OperationKind::SearchPlayer => "Too many unsuccessful attempts to get GHIN handicap.",
            OperationKind::GetCourse => "Too many unsuccessful attempts to get course.",
            OperationKind::SearchCourse => "Too many unsuccessful attempts to search course.",
            OperationKind::GetTees => "Too many unsuccessful attempts to search course.",
            OperationKind::RequestGpa => "Too many unsuccessful attempts to request_gpa.",
        }
    }
}

/// Why a call failed. None of these is retried: only an authorization
/// failure leads to another attempt, and that is no error until the attempts
/// are used up.
#[derive(Clone, Debug, PartialEq, Eq)]
pub enum Error {
    /// The attempt ceiling was reached.
    RetryExhausted { operation: OperationKind },
    /// The provider answered 400. `body` is what it sent along.
    BadRequest { operation: OperationKind, body: String },
    /// The provider answered with a status that the protocol does not know.
    UnknownUpstreamStatus { operation: OperationKind, status: u16 },
    /// A search for one golfer came back without a row.
    EmptyResult,
    /// The network failed, or a body could not be read. `message` is the
    /// failure as the transport reported it.
    TransportError { message: String },
    /// A provider was named that this library does not serve.
    UnknownSource { source: String },
}

/// An `Error` as specifications see it.
pub enum ErrorView {
    RetryExhausted { operation: OperationKind },
    BadRequest { operation: OperationKind, body: Seq<char> },
    UnknownUpstreamStatus { operation: OperationKind, status: u16 },
    EmptyResult,
    TransportError { message: Seq<char> },
    UnknownSource { source: Seq<char> },
}

impl View for Error {
    type V = ErrorView;

    open spec fn view(&self) -> ErrorView {
        match self {
            Error::RetryExhausted { operation } => ErrorView::RetryExhausted {
                operation: *operation,
            },
            Error::BadRequest { operation, body } => ErrorView::BadRequest {
                operation: *operation,
                body: body@,
            },
            Error::UnknownUpstreamStatus { operation, status } => ErrorView::UnknownUpstreamStatus {
                operation: *operation,
                status: *status,
            },
            Error::EmptyResult => ErrorView::EmptyResult,
            Error::TransportError { message } => ErrorView::TransportError { message: message@ },
            Error::UnknownSource { source } => ErrorView::UnknownSource { source: source@ },
        }
    }
}

/// The message of an error. A transport failure is passed on word for word.
pub open spec fn message_of(e: ErrorView) -> Seq<char> {
    match e {
        ErrorView::RetryExhausted { operation } => operation.exhausted_spec(),
        ErrorView::BadRequest { operation, body } => "bad request for "@ + operation.name_spec(),
        ErrorView::UnknownUpstreamStatus { operation, status } => "Unknown "@
            + operation.name_spec() + " error"@,
        ErrorView::EmptyResult => "No golfers in response"@,
        ErrorView::TransportError { message } => message,
        ErrorView::UnknownSource { source } => "unknown handicap source: '"@ + source + "'"@,
    }
}

impl Error {
    /// The message that the caller is shown.
    pub fn message(&self) -> (r: String)
        ensures
            r@ == message_of(self@),
    {
        match self {
            Error::RetryExhausted { operation } => String::from_str(operation.exhausted()),
            Error::BadRequest { operation, body } => String::from_str("bad request for ").concat(
                operation.name(),
            ),
            Error::UnknownUpstreamStatus { operation, status } => String::from_str(
                "Unknown ",
            ).concat(operation.name()).concat(" error"),
            Error::EmptyResult => String::from_str("No golfers in response"),
            Error::TransportError { message } => message.clone(),
            Error::UnknownSource { source } => String::from_str(
                "unknown handicap source: '",
            ).concat(source.as_str()).concat("'"),
        }
    }
}

} // verus!
