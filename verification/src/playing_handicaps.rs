//! The playing handicaps call: how it is named, where it is posted, and how
//! often it may be tried.

use crate::request::{Body, BodyView, Method, Request, RequestView};
use crate::retry::ATTEMPT_CEILING;
use vstd::prelude::*;
use vstd::string::*;

verus! {

/// An authenticated call as a description: its name, the method and the path
/// below the base address, and the attempts that it may begin.
#[derive(Clone, Debug, PartialEq, Eq)]
pub struct ApiCall {
    pub name: String,
    pub method: Method,
    pub path: String,
    pub retries: u8,
}

/// An `ApiCall` as specifications see it.
pub struct ApiCallView {
    pub name: Seq<char>,
    pub method: Method,
    pub path: Seq<char>,
    pub retries: u8,
}

impl View for ApiCall {
    type V = ApiCallView;

    open spec fn view(&self) -> ApiCallView {
        ApiCallView {
            name: self.name@,
            method: self.method,
            path: self.path@,
            retries: self.retries,
        }
    }
}

impl ApiCallView {
    /// The request of the call: the message that the service was asked with
    /// goes to the call's path, with the token presented.
    pub open spec fn request(self, url: Seq<char>, token: Seq<char>) -> RequestView {
        RequestView {
            method: self.method,
            uri: url + self.path,
            query: Seq::empty(),
            body: BodyView::Message,
            bearer: Some(token),
        }
    }
}

impl ApiCall {
    pub fn request(&self, url: &str, token: &str) -> (r: Request)
        ensures
            r@ == self@.request(url@, token@),
    {
        let r = Request {
            method: self.method,
            uri: String::from_str(url).concat(self.path.as_str()),
            query: Vec::new(),
            body: Body::Message,
            bearer: Some(String::from_str(token)),
        };
        assert(r@.query =~= Seq::empty());
        r
    }
}

/// The playing handicaps call.
pub fn get_call() -> (call: ApiCall)
    ensures
        call@ == (ApiCallView {
            name: "get_playing_handicaps"@,
            method: Method::Post,
            path: "/playing_handicaps.json"@,
            retries: ATTEMPT_CEILING,
        }),
{
    ApiCall {
        name: String::from_str("get_playing_handicaps"),
        method: Method::Post,
        path: String::from_str("/playing_handicaps.json"),
        retries: 2,
    }
}

} // verus!
