//! The requests that the protocol sends, as plain values: the transport turns
//! one into an HTTP call and knows nothing else.
//!
//! Every path hangs below the configured base address. Every request but the
//! login presents the bearer token.

use crate::handicap::{
    text_of, views, GetCourse, GetCourseView, Pagination, PaginationView, SearchCourse,
    SearchCourseView, SearchPlayer, SearchPlayerView, SearchTee, SearchTeeView,
};
use crate::settings::{Ghin, GhinView};
use crate::text::{decimal, decimal_string, truth, truth_string};
use crate::upstream::{GpaPayload, GpaPayloadView, LoginPayload, LoginPayloadView, User, UserView};
use vstd::prelude::*;
use vstd::string::*;

verus! {

#[derive(Clone, Copy, Debug, PartialEq, Eq)]
pub enum Method {
    Get,
    Post,
}

/// One parameter of a query string.
#[derive(Clone, Debug, PartialEq, Eq)]
pub struct Param {
    pub name: String,
    pub value: String,
}

/// A `Param` as specifications see it.
pub struct ParamView {
    pub name: Seq<char>,
    pub value: Seq<char>,
}

impl View for Param {
    type V = ParamView;

    open spec fn view(&self) -> ParamView {
        ParamView { name: self.name@, value: self.value@ }
    }
}

/// What a request carries as its JSON body.
#[derive(Clone, Debug, PartialEq, Eq)]
pub enum Body {
    Empty,
    Login(LoginPayload),
    ProductAccess(GpaPayload),
    /// The message that the service was asked with, sent on as it stands.
    Message,
}

/// A `Body` as specifications see it.
pub enum BodyView {
    Empty,
    Login(LoginPayloadView),
    ProductAccess(GpaPayloadView),
    Message,
}

impl View for Body {
    type V = BodyView;

    open spec fn view(&self) -> BodyView {
        match self {
            Body::Empty => BodyView::Empty,
            Body::Login(p) => BodyView::Login(p@),
            Body::ProductAccess(p) => BodyView::ProductAccess(p@),
            Body::Message => BodyView::Message,
        }
    }
}

/// A request in full: the method, the address, the query parameters in the
/// order in which they are sent, the body, and the token that is presented.
#[derive(Clone, Debug, PartialEq, Eq)]
pub struct Request {
    pub method: Method,
    pub uri: String,
    pub query: Vec<Param>,
    pub body: Body,
    pub bearer: Option<String>,
}

/// A `Request` as specifications see it.
pub struct RequestView {
    pub method: Method,
    pub uri: Seq<char>,
    pub query: Seq<ParamView>,
    pub body: BodyView,
    pub bearer: Option<Seq<char>>,
}

impl View for Request {
    type V = RequestView;

    open spec fn view(&self) -> RequestView {
        RequestView {
            method: self.method,
            uri: self.uri@,
            query: views(self.query@),
            body: self.body@,
            bearer: text_of(self.bearer),
        }
    }
}

/// The login request: the account as the body, posted without a token.
pub open spec fn login_request_of(account: GhinView) -> RequestView {
    RequestView {
        method: Method::Post,
        uri: account.url + "/users/login.json"@,
        query: Seq::empty(),
        body: BodyView::Login(
            LoginPayloadView {
                user: UserView {
                    email: account.username,
                    password: account.password,
                    remember_me: true,
                },
            },
        ),
        bearer: None,
    }
}

/// The golfer search: the page, the query's own fields, and the fixed choice
/// of active golfers in ascending order of their full names.
pub open spec fn search_player_request_of(
    url: Seq<char>,
    token: Seq<char>,
    q: SearchPlayerView,
    p: PaginationView,
) -> RequestView {
    RequestView {
        method: Method::Get,
        uri: url + "/golfers/search.json"@,
        query: seq![
            ParamView { name: "page"@, value: decimal(p.page as int) },
            ParamView { name: "per_page"@, value: decimal(p.per_page as int) },
            ParamView { name: "golfer_id"@, value: q.golfer_id },
            ParamView { name: "state"@, value: q.state },
            ParamView { name: "country"@, value: q.country },
            ParamView { name: "last_name"@, value: q.last_name },
            ParamView { name: "first_name"@, value: q.first_name },
            ParamView { name: "email"@, value: q.email },
            ParamView { name: "status"@, value: "Active"@ },
            ParamView { name: "sorting_criteria"@, value: "full_name"@ },
            ParamView { name: "order"@, value: "asc"@ },
        ],
        body: BodyView::Empty,
        bearer: Some(token),
    }
}

/// The course lookup: the id of the course stands in the path, and once more
/// in the query under `name`.
pub open spec fn get_course_request_of(
    url: Seq<char>,
    token: Seq<char>,
    q: GetCourseView,
) -> RequestView {
    RequestView {
        method: Method::Get,
        uri: url + "/courses/"@ + decimal(q.course_id as int) + ".json"@,
        query: seq![
            ParamView { name: "name"@, value: decimal(q.course_id as int) },
            ParamView { name: "include_altered_tees"@, value: truth(q.include_altered_tees) },
        ],
        body: BodyView::Empty,
        bearer: Some(token),
    }
}

/// The course search. Tee sets are never asked for.
pub open spec fn search_course_request_of(
    url: Seq<char>,
    token: Seq<char>,
    q: SearchCourseView,
) -> RequestView {
    RequestView {
        method: Method::Get,
        uri: url + "/courses/search.json"@,
        query: seq![
            ParamView { name: "name"@, value: q.course_name },
            ParamView { name: "country"@, value: q.country },
            ParamView { name: "state"@, value: q.state },
            ParamView { name: "include_tee_sets"@, value: truth(false) },
        ],
        body: BodyView::Empty,
        bearer: Some(token),
    }
}

/// The tee set lookup of one course.
pub open spec fn get_tees_request_of(
    url: Seq<char>,
    token: Seq<char>,
    q: SearchTeeView,
) -> RequestView {
    RequestView {
        method: Method::Get,
        uri: url + "/courses/"@ + decimal(q.course_id as int) + "/tee_set_ratings.json"@,
        query: seq![
            ParamView { name: "gender"@, value: q.gender },
            ParamView { name: "number_of_holes"@, value: decimal(q.number_of_holes as int) },
            ParamView { name: "tee_set_status"@, value: q.tee_set_status },
        ],
        body: BodyView::Empty,
        bearer: Some(token),
    }
}

/// The request for product access: the golfer's id stands in the path, the
/// e-mail address is the body.
pub open spec fn request_gpa_request_of(
    url: Seq<char>,
    token: Seq<char>,
    id: Seq<char>,
    email: Seq<char>,
) -> RequestView {
    RequestView {
        method: Method::Post,
        uri: url + "/users/golfers/"@ + id + "/request_golfer_product_access.json"@,
        query: Seq::empty(),
        body: BodyView::ProductAccess(GpaPayloadView { email: email }),
        bearer: Some(token),
    }
}

fn param(name: &str, value: String) -> (r: Param)
    ensures
        r@ == (ParamView { name: name@, value: value@ }),
{
    Param { name: String::from_str(name), value }
}

pub fn login_request(account: &Ghin) -> (r: Request)
    ensures
        r@ == login_request_of(account@),
{
    let user = User {
        email: account.username.clone(),
        password: account.password.clone(),
        remember_me: true,
    };
    let r = Request {
        method: Method::Post,
        uri: account.url.clone().concat("/users/login.json"),
        query: Vec::new(),
        body: Body::Login(LoginPayload { user }),
        bearer: None,
    };
    assert(r@.query =~= Seq::empty());
    r
}

pub fn search_player_request(url: &str, token: &str, q: &SearchPlayer, p: &Pagination) -> (r:
    Request)
    ensures
        r@ == search_player_request_of(url@, token@, q@, p@),
{
    let mut query: Vec<Param> = Vec::new();
    query.push(param("page", decimal_string(p.page)));
    query.push(param("per_page", decimal_string(p.per_page)));
    query.push(param("golfer_id", q.golfer_id.clone()));
    query.push(param("state", q.state.clone()));
    query.push(param("country", q.country.clone()));
    query.push(param("last_name", q.last_name.clone()));
    query.push(param("first_name", q.first_name.clone()));
    query.push(param("email", q.email.clone()));
    query.push(param("status", String::from_str("Active")));
    query.push(param("sorting_criteria", String::from_str("full_name")));
    query.push(param("order", String::from_str("asc")));
    let r = Request {
        method: Method::Get,
        uri: String::from_str(url).concat("/golfers/search.json"),
        query,
        body: Body::Empty,
        bearer: Some(String::from_str(token)),
    };
    assert(r@.query =~= search_player_request_of(url@, token@, q@, p@).query);
    r
}

pub fn get_course_request(url: &str, token: &str, q: &GetCourse) -> (r: Request)
    ensures
        r@ == get_course_request_of(url@, token@, q@),
{
    let id = decimal_string(q.course_id);
    let mut query: Vec<Param> = Vec::new();
    query.push(param("name", id.clone()));
    query.push(param("include_altered_tees", truth_string(q.include_altered_tees)));
    let r = Request {
        method: Method::Get,
        uri: String::from_str(url).concat("/courses/").concat(id.as_str()).concat(".json"),
        query,
        body: Body::Empty,
        bearer: Some(String::from_str(token)),
    };
    assert(r@.query =~= get_course_request_of(url@, token@, q@).query);
    r
}

pub fn search_course_request(url: &str, token: &str, q: &SearchCourse) -> (r: Request)
    ensures
        r@ == search_course_request_of(url@, token@, q@),
{
    let mut query: Vec<Param> = Vec::new();
    query.push(param("name", q.course_name.clone()));
    query.push(param("country", q.country.clone()));
    query.push(param("state", q.state.clone()));
    query.push(param("include_tee_sets", truth_string(false)));
    let r = Request {
        method: Method::Get,
        uri: String::from_str(url).concat("/courses/search.json"),
        query,
        body: Body::Empty,
        bearer: Some(String::from_str(token)),
    };
    assert(r@.query =~= search_course_request_of(url@, token@, q@).query);
    r
}

pub fn get_tees_request(url: &str, token: &str, q: &SearchTee) -> (r: Request)
    ensures
        r@ == get_tees_request_of(url@, token@, q@),
{
    let mut query: Vec<Param> = Vec::new();
    query.push(param("gender", q.gender.clone()));
    query.push(param("number_of_holes", decimal_string(q.number_of_holes)));
    query.push(param("tee_set_status", q.tee_set_status.clone()));
    let r = Request {
        method: Method::Get,
        uri: String::from_str(url).concat("/courses/").concat(
            decimal_string(q.course_id).as_str(),
        ).concat("/tee_set_ratings.json"),
        query,
        body: Body::Empty,
        bearer: Some(String::from_str(token)),
    };
    assert(r@.query =~= get_tees_request_of(url@, token@, q@).query);
    r
}

pub fn request_gpa_request(url: &str, token: &str, id: &str, email: &str) -> (r: Request)
    ensures
        r@ == request_gpa_request_of(url@, token@, id@, email@),
{
    let r = Request {
        method: Method::Post,
        uri: String::from_str(url).concat("/users/golfers/").concat(id).concat(
            "/request_golfer_product_access.json",
        ),
        query: Vec::new(),
        body: Body::ProductAccess(GpaPayload { email: String::from_str(email) }),
        bearer: Some(String::from_str(token)),
    };
    assert(r@.query =~= Seq::empty());
    r
}

} // verus!
