use ghin::handicap::{GetCourse, Pagination, SearchCourse, SearchPlayer, SearchTee};
use ghin::request::{
    get_course_request, get_tees_request, login_request, request_gpa_request,
    search_course_request, search_player_request, Body, Method, Param, Request,
};
use ghin::settings::Ghin;
use ghin::upstream::{GpaPayload, LoginPayload, User};

fn param(name: &str, value: &str) -> Param {
    Param { name: name.to_string(), value: value.to_string() }
}

const BASE: &str = "https://api.example.test/api/v1";

#[test]
fn login_posts_the_account_without_a_token() {
    let account = Ghin {
        url: BASE.to_string(),
        username: "pro@example.test".to_string(),
        password: "hunter2".to_string(),
    };
    assert_eq!(
        login_request(&account),
        Request {
            method: Method::Post,
            uri: "https://api.example.test/api/v1/users/login.json".to_string(),
            query: vec![],
            body: Body::Login(LoginPayload {
                user: User {
                    email: "pro@example.test".to_string(),
                    password: "hunter2".to_string(),
                    remember_me: true,
                },
            }),
            bearer: None,
        }
    );
}

#[test]
fn golfer_search_sends_its_parameters_in_order() {
    let q = SearchPlayer {
        source: "ghin".to_string(),
        golfer_id: "123".to_string(),
        country: "USA".to_string(),
        state: "CA".to_string(),
        last_name: "Lee".to_string(),
        first_name: "Ann".to_string(),
        email: "ann@example.test".to_string(),
    };
    let p = Pagination { page: 3, per_page: 25 };
    assert_eq!(
        search_player_request(BASE, "tok", &q, &p),
        Request {
            method: Method::Get,
            uri: "https://api.example.test/api/v1/golfers/search.json".to_string(),
            query: vec![
                param("page", "3"),
                param("per_page", "25"),
                param("golfer_id", "123"),
                param("state", "CA"),
                param("country", "USA"),
                param("last_name", "Lee"),
                param("first_name", "Ann"),
                param("email", "ann@example.test"),
                param("status", "Active"),
                param("sorting_criteria", "full_name"),
                param("order", "asc"),
            ],
            body: Body::Empty,
            bearer: Some("tok".to_string()),
        }
    );
}

#[test]
fn course_lookup_names_the_course_in_the_path_and_in_the_query() {
    let q = GetCourse { course_id: 4711, include_altered_tees: true };
    assert_eq!(
        get_course_request(BASE, "tok", &q),
        Request {
            method: Method::Get,
            uri: "https://api.example.test/api/v1/courses/4711.json".to_string(),
            query: vec![param("name", "4711"), param("include_altered_tees", "true")],
            body: Body::Empty,
            bearer: Some("tok".to_string()),
        }
    );
    let q = GetCourse { course_id: 0, include_altered_tees: false };
    let r = get_course_request(BASE, "", &q);
    assert_eq!(r.uri, "https://api.example.test/api/v1/courses/0.json");
    assert_eq!(r.query[1], param("include_altered_tees", "false"));
    assert_eq!(r.bearer, Some(String::new()));
}

#[test]
fn course_search_never_asks_for_tee_sets() {
    let q = SearchCourse {
        course_name: "Links".to_string(),
        country: "USA".to_string(),
        state: "CA".to_string(),
    };
    assert_eq!(
        search_course_request(BASE, "tok", &q),
        Request {
            method: Method::Get,
            uri: "https://api.example.test/api/v1/courses/search.json".to_string(),
            query: vec![
                param("name", "Links"),
                param("country", "USA"),
                param("state", "CA"),
                param("include_tee_sets", "false"),
            ],
            body: Body::Empty,
            bearer: Some("tok".to_string()),
        }
    );
}

#[test]
fn tee_lookup_names_the_course_in_the_path() {
    let q = SearchTee {
        course_id: 88,
        gender: "F".to_string(),
        number_of_holes: 18,
        tee_set_status: "Active".to_string(),
    };
    assert_eq!(
        get_tees_request(BASE, "tok", &q),
        Request {
            method: Method::Get,
            uri: "https://api.example.test/api/v1/courses/88/tee_set_ratings.json".to_string(),
            query: vec![
                param("gender", "F"),
                param("number_of_holes", "18"),
                param("tee_set_status", "Active"),
            ],
            body: Body::Empty,
            bearer: Some("tok".to_string()),
        }
    );
}

#[test]
fn product_access_posts_the_address_for_the_golfer() {
    assert_eq!(
        request_gpa_request(BASE, "tok", "123", "ann@example.test"),
        Request {
            method: Method::Post,
            uri: "https://api.example.test/api/v1/users/golfers/123/request_golfer_product_access.json"
                .to_string(),
            query: vec![],
            body: Body::ProductAccess(GpaPayload { email: "ann@example.test".to_string() }),
            bearer: Some("tok".to_string()),
        }
    );
}
