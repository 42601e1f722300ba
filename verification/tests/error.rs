use ghin::error::{Error, OperationKind};

const KINDS: [OperationKind; 5] = [
    OperationKind::SearchPlayer,
    OperationKind::GetCourse,
    OperationKind::SearchCourse,
    OperationKind::GetTees,
    OperationKind::RequestGpa,
];

#[test]
fn operations_have_their_names() {
    let names: Vec<&str> = KINDS.iter().map(|k| k.name()).collect();
    assert_eq!(names, vec!["search_player", "get_course", "search_course", "get_tees", "request_gpa"]);
}

#[test]
fn retry_exhausted_says_what_was_tried() {
    let messages: Vec<String> =
        KINDS.iter().map(|k| Error::RetryExhausted { operation: *k }.message()).collect();
    assert_eq!(
        messages,
        vec![
            "Too many unsuccessful attempts to get GHIN handicap.",
            "Too many unsuccessful attempts to get course.",
            "Too many unsuccessful attempts to search course.",
            "Too many unsuccessful attempts to search course.",
            "Too many unsuccessful attempts to request_gpa.",
        ]
    );
}

#[test]
fn bad_request_names_the_operation_and_keeps_the_body() {
    let e = Error::BadRequest {
        operation: OperationKind::GetTees,
        body: "{\"error\":\"gender is missing\"}".to_string(),
    };
    assert_eq!(e.message(), "bad request for get_tees");
    assert!(matches!(e, Error::BadRequest { ref body, .. } if body == "{\"error\":\"gender is missing\"}"));
    for k in KINDS {
        let e = Error::BadRequest { operation: k, body: String::new() };
        assert_eq!(e.message(), format!("bad request for {}", k.name()));
    }
}

#[test]
fn unknown_status_names_the_operation() {
    for k in KINDS {
        let e = Error::UnknownUpstreamStatus { operation: k, status: 503 };
        assert_eq!(e.message(), format!("Unknown {} error", k.name()));
    }
    let e = Error::UnknownUpstreamStatus { operation: OperationKind::SearchPlayer, status: 500 };
    assert_eq!(e.message(), "Unknown search_player error");
}

#[test]
fn empty_result_message() {
    assert_eq!(Error::EmptyResult.message(), "No golfers in response");
}

#[test]
fn transport_error_is_passed_on_word_for_word() {
    let e = Error::TransportError { message: "connection reset by peer".to_string() };
    assert_eq!(e.message(), "connection reset by peer");
}

#[test]
fn unknown_source_quotes_the_source() {
    let e = Error::UnknownSource { source: "usga".to_string() };
    assert_eq!(e.message(), "unknown handicap source: 'usga'");
    let e = Error::UnknownSource { source: String::new() };
    assert_eq!(e.message(), "unknown handicap source: ''");
}
