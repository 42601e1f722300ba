use ghin::error::Error;
use ghin::handicap::{GetHandicapResponse, Pagination, SearchPlayer, SearchPlayerResponse};
use ghin::playing_handicaps::get_call;
use ghin::request::{Body, Method};
use ghin::retry::Operation;
use ghin::service::{
    check_source, handicap, handicap_operation, request_gpa_operation, search_player_operation,
};

fn player(id: &str) -> GetHandicapResponse {
    GetHandicapResponse {
        id: id.to_string(),
        source: "ghin".to_string(),
        prefix: String::new(),
        first_name: "Ann".to_string(),
        middle_name: String::new(),
        last_name: "Lee".to_string(),
        suffix: String::new(),
        player_name: "Ann Lee".to_string(),
        gender: "F".to_string(),
        active: true,
        index: "8.1".to_string(),
        rev_date: String::new(),
        clubs: vec![],
    }
}

fn query(source: &str) -> SearchPlayer {
    SearchPlayer {
        source: source.to_string(),
        golfer_id: String::new(),
        country: "USA".to_string(),
        state: "CA".to_string(),
        last_name: "Smith".to_string(),
        first_name: String::new(),
        email: String::new(),
    }
}

#[test]
fn only_ghin_is_served() {
    assert_eq!(check_source("ghin"), Ok(()));
    assert_eq!(check_source("usga"), Err(Error::UnknownSource { source: "usga".to_string() }));
    assert_eq!(check_source("GHIN"), Err(Error::UnknownSource { source: "GHIN".to_string() }));
    assert_eq!(check_source(""), Err(Error::UnknownSource { source: String::new() }));
    assert_eq!(check_source("ghin "), Err(Error::UnknownSource { source: "ghin ".to_string() }));
}

#[test]
fn handicap_lookup_is_a_search_for_one_golfer() {
    assert_eq!(
        handicap_operation("ghin", "123"),
        Ok(Operation::SearchPlayer {
            q: SearchPlayer {
                source: "ghin".to_string(),
                golfer_id: "123".to_string(),
                country: String::new(),
                state: String::new(),
                last_name: String::new(),
                first_name: String::new(),
                email: String::new(),
            },
            p: Pagination { page: 1, per_page: 25 },
        })
    );
}

#[test]
fn handicap_lookup_of_an_unknown_source_fails() {
    let e = handicap_operation("whs", "123").unwrap_err();
    assert_eq!(e, Error::UnknownSource { source: "whs".to_string() });
    assert_eq!(e.message(), "unknown handicap source: 'whs'");
}

#[test]
fn player_search_keeps_the_query_and_the_page() {
    let p = Pagination { page: 2, per_page: 50 };
    assert_eq!(
        search_player_operation(query("ghin"), p.clone()),
        Ok(Operation::SearchPlayer { q: query("ghin"), p: p.clone() })
    );
    assert_eq!(
        search_player_operation(query("other"), p),
        Err(Error::UnknownSource { source: "other".to_string() })
    );
}

#[test]
fn product_access_keeps_the_golfer_and_the_address() {
    assert_eq!(
        request_gpa_operation("ghin", "123", "ann@example.test"),
        Ok(Operation::RequestGpa { id: "123".to_string(), email: "ann@example.test".to_string() })
    );
    assert_eq!(
        request_gpa_operation("", "123", "ann@example.test"),
        Err(Error::UnknownSource { source: String::new() })
    );
}

#[test]
fn handicap_is_the_first_player_found() {
    let found = SearchPlayerResponse { players: vec![player("1"), player("2")] };
    assert_eq!(handicap(found), Some(player("1")));
    assert_eq!(handicap(SearchPlayerResponse { players: vec![player("9")] }), Some(player("9")));
    assert_eq!(handicap(SearchPlayerResponse { players: vec![] }), None);
}

#[test]
fn playing_handicaps_call() {
    let call = get_call();
    assert_eq!(call.name, "get_playing_handicaps");
    assert_eq!(call.method, Method::Post);
    assert_eq!(call.path, "/playing_handicaps.json");
    assert_eq!(call.retries, 2);
    let r = call.request("https://api.example.test/api/v1", "tok");
    assert_eq!(r.method, Method::Post);
    assert_eq!(r.uri, "https://api.example.test/api/v1/playing_handicaps.json");
    assert!(r.query.is_empty());
    assert_eq!(r.body, Body::Message);
    assert_eq!(r.bearer, Some("tok".to_string()));
}

#[test]
fn every_failure_is_shown_as_unknown_with_its_message() {
    let errors = vec![
        Error::RetryExhausted { operation: ghin::error::OperationKind::GetCourse },
        Error::BadRequest { operation: ghin::error::OperationKind::GetTees, body: "x".to_string() },
        Error::UnknownUpstreamStatus { operation: ghin::error::OperationKind::RequestGpa, status: 500 },
        Error::EmptyResult,
        Error::TransportError { message: "timed out".to_string() },
        Error::UnknownSource { source: "usga".to_string() },
    ];
    for e in errors {
        let shown = ghin::service::failure(&e);
        assert_eq!(shown.code, ghin::service::Code::Unknown);
        assert_eq!(shown.detail, e.message());
    }
    let shown = ghin::service::failure(&Error::UnknownSource { source: "usga".to_string() });
    assert_eq!(shown.detail, "unknown handicap source: 'usga'");
}
