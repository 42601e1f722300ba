//! What the service decides before it calls the provider, and after: which
//! provider is meant, which operation a request stands for, and which player
//! answers a handicap lookup.

use crate::error::{message_of, Error, ErrorView};
use crate::handicap::{
    GetHandicapResponse, Pagination, PaginationView, SearchPlayer, SearchPlayerResponse,
    SearchPlayerView,
};
use crate::normalize::outcome_view;
use crate::retry::{normalized, Operation, OperationView, OutputView, PayloadView};
use vstd::prelude::*;
use vstd::string::*;

verus! {

/// Whether a provider of this name is served. There is one: `ghin`.
pub open spec fn is_served(source: Seq<char>) -> bool {
    source == "ghin"@
}

/// The operation that a handicap lookup stands for: a search for the one
/// golfer with this id, first page, 25 rows.
pub open spec fn handicap_operation_of(source: Seq<char>, id: Seq<char>) -> Result<
    OperationView,
    ErrorView,
> {
    if is_served(source) {
        Ok(
            OperationView::SearchPlayer {
                q: SearchPlayerView {
                    source: source,
                    golfer_id: id,
                    country: Seq::empty(),
                    state: Seq::empty(),
                    last_name: Seq::empty(),
                    first_name: Seq::empty(),
                    email: Seq::empty(),
                },
                p: PaginationView { page: 1, per_page: 25 },
            },
        )
    } else {
        Err(ErrorView::UnknownSource { source: source })
    }
}

/// The operation that a player search stands for.
pub open spec fn search_player_operation_of(q: SearchPlayerView, p: PaginationView) -> Result<
    OperationView,
    ErrorView,
> {
    if is_served(q.source) {
        Ok(OperationView::SearchPlayer { q: q, p: p })
    } else {
        Err(ErrorView::UnknownSource { source: q.source })
    }
}

/// The operation that a request for product access stands for.
pub open spec fn request_gpa_operation_of(
    source: Seq<char>,
    id: Seq<char>,
    email: Seq<char>,
) -> Result<OperationView, ErrorView> {
    if is_served(source) {
        Ok(OperationView::RequestGpa { id: id, email: email })
    } else {
        Err(ErrorView::UnknownSource { source: source })
    }
}

/// Tells whether the named provider is served, and fails with
/// `UnknownSource` where it is not.
pub fn check_source(source: &str) -> (r: Result<(), Error>)
    ensures
        is_served(source@) ==> r is Ok,
        !is_served(source@) ==> (r matches Err(e) && e@ == (ErrorView::UnknownSource {
            source: source@,
        })),
{
    let given = String::from_str(source);
    if given == String::from_str("ghin") {
        Ok(())
    } else {
        Err(Error::UnknownSource { source: given })
    }
}

pub fn handicap_operation(source: &str, id: &str) -> (r: Result<Operation, Error>)
    ensures
        outcome_view(r) == handicap_operation_of(source@, id@),
{
    match check_source(source) {
        Ok(()) => {
            let q = SearchPlayer {
                source: String::from_str(source),
                golfer_id: String::from_str(id),
                country: String::new(),
                state: String::new(),
                last_name: String::new(),
                first_name: String::new(),
                email: String::new(),
            };
            let p = Pagination { page: 1, per_page: 25 };
            Ok(Operation::SearchPlayer { q, p })
        },
        Err(e) => Err(e),
    }
}

pub fn search_player_operation(q: SearchPlayer, p: Pagination) -> (r: Result<Operation, Error>)
    ensures
        outcome_view(r) == search_player_operation_of(q@, p@),
{
    match check_source(q.source.as_str()) {
        Ok(()) => Ok(Operation::SearchPlayer { q, p }),
        Err(e) => Err(e),
    }
}

pub fn request_gpa_operation(source: &str, id: &str, email: &str) -> (r: Result<Operation, Error>)
    ensures
        outcome_view(r) == request_gpa_operation_of(source@, id@, email@),
{
    match check_source(source) {
        Ok(()) => Ok(
            Operation::RequestGpa { id: String::from_str(id), email: String::from_str(email) },
        ),
        Err(e) => Err(e),
    }
}

/// The status codes that the service answers a failure with. There is one:
/// whatever went wrong, the caller is told `Unknown`.
#[derive(Clone, Copy, Debug, PartialEq, Eq)]
pub enum Code {
    Unknown,
}

/// A failure as the caller of the service sees it: the status code, and the
/// error's message as the detail.
#[derive(Clone, Debug, PartialEq, Eq)]
pub struct Failure {
    pub code: Code,
    pub detail: String,
}

/// A `Failure` as specifications see it.
pub struct FailureView {
    pub code: Code,
    pub detail: Seq<char>,
}

impl View for Failure {
    type V = FailureView;

    open spec fn view(&self) -> FailureView {
        FailureView { code: self.code, detail: self.detail@ }
    }
}

/// What the caller of the service is shown for an error.
pub fn failure(e: &Error) -> (r: Failure)
    ensures
        r@ == (FailureView { code: Code::Unknown, detail: message_of(e@) }),
{
    Failure { code: Code::Unknown, detail: e.message() }
}

/// The player that answers a handicap lookup: the first that was found, if
/// any was.
pub fn handicap(found: SearchPlayerResponse) -> (r: Option<GetHandicapResponse>)
    ensures
        found.players.len() == 0 <==> r is None,
        r matches Some(player) ==> player@ == found@.players[0],
{
    let mut players = found.players;
    if players.len() == 0 {
        None
    } else {
        Some(players.remove(0))
    }
}

/// A handicap lookup that names a golfer and comes to a result has found
/// exactly one player: there is always a first player to answer with.
pub proof fn a_lookup_finds_one_player(source: Seq<char>, id: Seq<char>, body: PayloadView)
    requires
        id.len() > 0,
        handicap_operation_of(source, id) is Ok,
        normalized(handicap_operation_of(source, id)->Ok_0, body) matches Some(Ok(output)),
    ensures
        normalized(handicap_operation_of(source, id)->Ok_0, body) matches Some(
            Ok(OutputView::Players(found)),
        ) && found.players.len() == 1,
{
}

} // verus!
