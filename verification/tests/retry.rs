use ghin::error::{Error, OperationKind};
use ghin::handicap::{GetCourse, Pagination, SearchCourse, SearchPlayer, SearchTee};
use ghin::normalize::{course_from_lookup, courses_from_search, players, tees_response};
use ghin::retry::{normalize, Action, Call, Event, Operation, Output, Payload, Phase, ATTEMPT_CEILING};
use ghin::token::Token;
use ghin::upstream::{
    CourseResponse, CoursesResponse, FacilityResp, GetCourseResp, Golfer, GolfersResponse,
    GpaPostResponse, SeasonResp, TeeResponse, TeesResponse,
};

fn text(s: &str) -> Option<String> {
    Some(s.to_string())
}

fn row(id: &str, club_id: i32, club: &str) -> Golfer {
    Golfer {
        ghin: text(id),
        prefix: None,
        first_name: text("Ann"),
        middle_name: None,
        last_name: text("Lee"),
        suffix: None,
        handicap_index: text("8.1"),
        gender: text("F"),
        rev_date: None,
        club_id: Some(club_id),
        club_name: text(club),
        club_affiliation_id: None,
        state: None,
        country: text("USA"),
    }
}

fn query(golfer_id: &str, last_name: &str) -> SearchPlayer {
    SearchPlayer {
        source: "ghin".to_string(),
        golfer_id: golfer_id.to_string(),
        country: String::new(),
        state: String::new(),
        last_name: last_name.to_string(),
        first_name: String::new(),
        email: String::new(),
    }
}

fn lookup(golfer_id: &str) -> Operation {
    Operation::SearchPlayer { q: query(golfer_id, ""), p: Pagination { page: 1, per_page: 25 } }
}

fn course_body() -> GetCourseResp {
    GetCourseResp {
        CourseId: Some(5),
        CourseStatus: None,
        CourseName: text("Old Course"),
        CourseCity: None,
        CourseState: None,
        Facility: FacilityResp {
            FacilityId: None,
            FacilityStatus: None,
            FacilityName: None,
            GeoLocationFormattedAddress: None,
            GeoLocationLatitude: None,
            GeoLocationLongitude: None,
        },
        Season: SeasonResp { SeasonName: None, SeasonStartDate: None, SeasonEndDate: None, IsAllYear: None },
        TeeSets: vec![],
    }
}

fn course_row() -> CourseResponse {
    CourseResponse {
        CourseID: Some(6),
        CourseStatus: None,
        CourseName: text("Links"),
        GeoLocationLatitude: None,
        GeoLocationLongitude: None,
        FacilityID: None,
        FacilityStatus: None,
        FacilityName: None,
        FullName: None,
        Address1: None,
        Address2: None,
        City: None,
        State: None,
        Country: None,
        UpdatedOn: None,
    }
}

fn tee_body() -> TeeResponse {
    TeeResponse {
        TeeSetRatingID: Some(1),
        TeeSetRatingName: text("Red"),
        Gender: None,
        HolesNumber: Some(9),
        TotalYardage: None,
        TotalMeters: None,
        TotalPar: None,
        Ratings: vec![],
        Holes: vec![],
    }
}

fn all_operations() -> Vec<(Operation, OperationKind, Payload)> {
    vec![
        (
            lookup("123"),
            OperationKind::SearchPlayer,
            Payload::Golfers(GolfersResponse { golfers: vec![row("123", 1, "Dunes")] }),
        ),
        (
            Operation::GetCourse { q: GetCourse { course_id: 5, include_altered_tees: false } },
            OperationKind::GetCourse,
            Payload::Course(course_body()),
        ),
        (
            Operation::SearchCourse {
                q: SearchCourse { course_name: "Links".to_string(), country: String::new(), state: String::new() },
            },
            OperationKind::SearchCourse,
            Payload::Courses(CoursesResponse { courses: vec![course_row()] }),
        ),
        (
            Operation::GetTees {
                q: SearchTee { course_id: 5, gender: "F".to_string(), number_of_holes: 9, tee_set_status: String::new() },
            },
            OperationKind::GetTees,
            Payload::Tees(TeesResponse { TeeSets: vec![tee_body()] }),
        ),
        (
            Operation::RequestGpa { id: "123".to_string(), email: "ann@example.test".to_string() },
            OperationKind::RequestGpa,
            Payload::ProductAccess(GpaPostResponse { success: "sent".to_string() }),
        ),
    ]
}

#[test]
fn the_ceiling_is_two_attempts() {
    assert_eq!(ATTEMPT_CEILING, 2);
}

#[test]
fn a_new_call_has_sent_nothing() {
    let call = Call::new(lookup("123"), 0);
    assert_eq!(call.phase(), Phase::Start);
    assert_eq!(call.attempts(), 0);
    assert_eq!(call.operation(), &lookup("123"));
    assert_eq!(call.operation().kind(), OperationKind::SearchPlayer);
}

#[test]
fn success_at_the_first_attempt() {
    for (op, _, body) in all_operations() {
        let expected = normalize(&op, body.clone()).unwrap().unwrap();
        let mut call = Call::new(op, 0);
        assert_eq!(call.step(Event::Begin), Some(Action::Issue));
        assert_eq!(call.phase(), Phase::Issued);
        assert_eq!(call.step(Event::Status(200)), Some(Action::Decode));
        assert_eq!(call.phase(), Phase::Succeeded);
        assert_eq!(call.step(Event::Payload(body)), Some(Action::Return(expected)));
        assert_eq!(call.phase(), Phase::Finished);
        assert_eq!(call.attempts(), 0);
    }
}

#[test]
fn two_refusals_in_a_row_exhaust_the_call() {
    for (op, kind, _) in all_operations() {
        let mut call = Call::new(op, 0);
        let mut requests = 0;
        let mut logins = 0;
        let mut action = call.step(Event::Begin).unwrap();
        let failure = loop {
            match action {
                Action::Issue => {
                    requests += 1;
                    action = call.step(Event::Status(401)).unwrap();
                }
                Action::Login => {
                    logins += 1;
                    action = call.step(Event::LoggedIn).unwrap();
                }
                Action::Fail(e) => break e,
                other => panic!("unexpected action {:?}", other),
            }
        };
        assert_eq!(failure, Error::RetryExhausted { operation: kind });
        assert_eq!(requests, 2);
        assert_eq!(logins, 2);
        assert_eq!(call.phase(), Phase::Failed);
        assert_eq!(call.attempts(), 2);
        assert_eq!(call.step(Event::Begin), None);
        assert_eq!(call.step(Event::Status(200)), None);
        assert_eq!(call.step(Event::LoggedIn), None);
        assert_eq!(call.phase(), Phase::Failed);
    }
}

#[test]
fn one_refusal_then_success_logs_in_once() {
    for (op, _, body) in all_operations() {
        let expected = normalize(&op, body.clone()).unwrap().unwrap();
        let mut call = Call::new(op, 0);
        assert_eq!(call.step(Event::Begin), Some(Action::Issue));
        assert_eq!(call.step(Event::Status(401)), Some(Action::Login));
        assert_eq!(call.phase(), Phase::Unauthorized);
        assert_eq!(call.step(Event::LoggedIn), Some(Action::Issue));
        assert_eq!(call.attempts(), 1);
        assert_eq!(call.phase(), Phase::Issued);
        assert_eq!(call.step(Event::Status(200)), Some(Action::Decode));
        assert_eq!(call.step(Event::Payload(body)), Some(Action::Return(expected)));
        assert_eq!(call.phase(), Phase::Finished);
        assert_eq!(call.attempts(), 1);
    }
}

#[test]
fn the_second_attempt_presents_the_new_token() {
    let mut cell = Token::new();
    cell.set_token("stale".to_string()).unwrap();
    let mut call = Call::new(lookup("123"), 0);
    assert_eq!(call.step(Event::Begin), Some(Action::Issue));
    let first = call.operation().request("https://api.example.test", &cell.token());
    assert_eq!(first.bearer, Some("stale".to_string()));
    assert_eq!(call.step(Event::Status(401)), Some(Action::Login));
    cell.set_token("fresh".to_string()).unwrap();
    assert_eq!(call.step(Event::LoggedIn), Some(Action::Issue));
    let second = call.operation().request("https://api.example.test", &cell.token());
    assert_eq!(second.bearer, Some("fresh".to_string()));
    assert_eq!(second.uri, first.uri);
    assert_eq!(second.query, first.query);
}

#[test]
fn a_call_that_starts_at_the_ceiling_sends_nothing() {
    for attempts in [2u8, 3, 200, 255] {
        let mut call = Call::new(lookup("123"), attempts);
        assert_eq!(
            call.step(Event::Begin),
            Some(Action::Fail(Error::RetryExhausted { operation: OperationKind::SearchPlayer }))
        );
        assert_eq!(call.phase(), Phase::Failed);
        assert_eq!(call.attempts(), attempts);
    }
}

#[test]
fn a_call_that_starts_one_below_the_ceiling_has_one_attempt() {
    let mut call = Call::new(lookup("123"), 1);
    assert_eq!(call.step(Event::Begin), Some(Action::Issue));
    assert_eq!(call.step(Event::Status(401)), Some(Action::Login));
    assert_eq!(
        call.step(Event::LoggedIn),
        Some(Action::Fail(Error::RetryExhausted { operation: OperationKind::SearchPlayer }))
    );
    assert_eq!(call.attempts(), 2);
}

#[test]
fn a_bad_request_is_diagnosed_and_not_retried() {
    for (op, kind, _) in all_operations() {
        let mut call = Call::new(op, 0);
        assert_eq!(call.step(Event::Begin), Some(Action::Issue));
        assert_eq!(call.step(Event::Status(400)), Some(Action::Diagnose));
        assert_eq!(call.phase(), Phase::BadRequest);
        let e = Error::BadRequest { operation: kind, body: "page must be positive".to_string() };
        assert_eq!(
            call.step(Event::Body("page must be positive".to_string())),
            Some(Action::Fail(e))
        );
        assert_eq!(call.phase(), Phase::Failed);
        assert_eq!(call.attempts(), 0);
        assert_eq!(call.step(Event::Begin), None);
    }
}

#[test]
fn any_other_status_fails_at_once() {
    for status in [0u16, 100, 201, 204, 302, 399, 402, 403, 404, 418, 500, 503, 65535] {
        let mut call = Call::new(lookup("123"), 0);
        assert_eq!(call.step(Event::Begin), Some(Action::Issue));
        assert_eq!(
            call.step(Event::Status(status)),
            Some(Action::Fail(Error::UnknownUpstreamStatus {
                operation: OperationKind::SearchPlayer,
                status,
            }))
        );
        assert_eq!(call.phase(), Phase::Failed);
    }
}

#[test]
fn a_transport_failure_ends_the_call_wherever_it_stands() {
    let lost = || Event::Transport("connection refused".to_string());
    let failed = Some(Action::Fail(Error::TransportError { message: "connection refused".to_string() }));

    let mut call = Call::new(lookup("123"), 0);
    call.step(Event::Begin);
    assert_eq!(call.step(lost()), failed);
    assert_eq!(call.phase(), Phase::Failed);

    let mut call = Call::new(lookup("123"), 0);
    call.step(Event::Begin);
    call.step(Event::Status(401));
    assert_eq!(call.step(lost()), failed);
    assert_eq!(call.phase(), Phase::Failed);
    assert_eq!(call.attempts(), 0);

    let mut call = Call::new(lookup("123"), 0);
    call.step(Event::Begin);
    call.step(Event::Status(400));
    assert_eq!(call.step(lost()), failed);

    let mut call = Call::new(lookup("123"), 0);
    call.step(Event::Begin);
    call.step(Event::Status(200));
    assert_eq!(call.step(lost()), failed);
    assert_eq!(call.step(lost()), None);
}

#[test]
fn an_event_that_is_not_awaited_changes_nothing() {
    let mut call = Call::new(lookup("123"), 0);
    assert_eq!(call.step(Event::Status(200)), None);
    assert_eq!(call.step(Event::LoggedIn), None);
    assert_eq!(call.step(Event::Transport("x".to_string())), None);
    assert_eq!(call.phase(), Phase::Start);
    call.step(Event::Begin);
    assert_eq!(call.step(Event::Begin), None);
    assert_eq!(call.step(Event::LoggedIn), None);
    assert_eq!(call.step(Event::Body("x".to_string())), None);
    assert_eq!(call.phase(), Phase::Issued);
    call.step(Event::Status(401));
    assert_eq!(call.step(Event::Status(200)), None);
    assert_eq!(call.phase(), Phase::Unauthorized);
    assert_eq!(call.attempts(), 0);
}

#[test]
fn a_body_of_the_wrong_shape_is_not_accepted() {
    let mut call = Call::new(lookup("123"), 0);
    call.step(Event::Begin);
    call.step(Event::Status(200));
    assert_eq!(call.step(Event::Payload(Payload::Course(course_body()))), None);
    assert_eq!(call.phase(), Phase::Succeeded);
    let body = Payload::Golfers(GolfersResponse { golfers: vec![row("123", 1, "Dunes")] });
    assert!(matches!(call.step(Event::Payload(body)), Some(Action::Return(Output::Players(_)))));
    for (op, _, _) in all_operations() {
        for (other, _, body) in all_operations() {
            let fits = op.kind() == other.kind();
            assert_eq!(normalize(&op, body).is_some(), fits);
        }
    }
}

#[test]
fn a_lookup_without_rows_fails_with_an_empty_result() {
    let mut call = Call::new(lookup("123"), 0);
    call.step(Event::Begin);
    call.step(Event::Status(200));
    let body = Payload::Golfers(GolfersResponse { golfers: vec![] });
    assert_eq!(call.step(Event::Payload(body)), Some(Action::Fail(Error::EmptyResult)));
    assert_eq!(call.phase(), Phase::Failed);

    let mut call = Call::new(lookup(""), 0);
    call.step(Event::Begin);
    call.step(Event::Status(200));
    let body = Payload::Golfers(GolfersResponse { golfers: vec![] });
    assert!(matches!(
        call.step(Event::Payload(body)),
        Some(Action::Return(Output::Players(found))) if found.players.is_empty()
    ));
}

#[test]
fn normalize_hands_each_body_to_its_normalizer() {
    let rows = vec![row("123", 1, "Dunes"), row("123", 2, "Pines"), row("123", 3, "Lakes")];
    let q = query("123", "");
    assert_eq!(
        normalize(&lookup("123"), Payload::Golfers(GolfersResponse { golfers: rows.clone() })),
        Some(Ok(Output::Players(players(&q, &rows).unwrap())))
    );
    let ops = all_operations();
    assert_eq!(
        normalize(&ops[1].0, Payload::Course(course_body())),
        Some(Ok(Output::Course(course_from_lookup(&course_body()))))
    );
    assert_eq!(
        normalize(&ops[2].0, Payload::Courses(CoursesResponse { courses: vec![course_row()] })),
        Some(Ok(Output::Courses(courses_from_search(&vec![course_row()]))))
    );
    assert_eq!(
        normalize(&ops[3].0, Payload::Tees(TeesResponse { TeeSets: vec![tee_body()] })),
        Some(Ok(Output::Tees(tees_response(&vec![tee_body()]))))
    );
    match normalize(&ops[4].0, Payload::ProductAccess(GpaPostResponse { success: "sent".to_string() })) {
        Some(Ok(Output::ProductAccess(answer))) => assert_eq!(answer.success, "sent"),
        other => panic!("unexpected answer {:?}", other),
    }
}

#[test]
fn a_lookup_through_the_whole_call_gives_one_player_with_three_clubs() {
    let rows = vec![row("123", 1, "Dunes"), row("123", 2, "Pines"), row("123", 3, "Lakes")];
    let mut call = Call::new(lookup("123"), 0);
    call.step(Event::Begin);
    call.step(Event::Status(200));
    match call.step(Event::Payload(Payload::Golfers(GolfersResponse { golfers: rows }))) {
        Some(Action::Return(Output::Players(found))) => {
            assert_eq!(found.players.len(), 1);
            assert_eq!(found.players[0].clubs.len(), 3);
        }
        other => panic!("unexpected answer {:?}", other),
    }
}

#[test]
fn each_operation_builds_its_own_request() {
    let uris: Vec<String> = all_operations()
        .iter()
        .map(|(op, _, _)| op.request("http://h", "t").uri)
        .collect();
    assert_eq!(
        uris,
        vec![
            "http://h/golfers/search.json",
            "http://h/courses/5.json",
            "http://h/courses/search.json",
            "http://h/courses/5/tee_set_ratings.json",
            "http://h/users/golfers/123/request_golfer_product_access.json",
        ]
    );
    for (op, _, _) in all_operations() {
        assert_eq!(op.request("http://h", "t").bearer, Some("t".to_string()));
    }
}

fn alphabet() -> Vec<Event> {
    vec![
        Event::Begin,
        Event::Status(200),
        Event::Status(400),
        Event::Status(401),
        Event::Status(500),
        Event::LoggedIn,
        Event::Body("no".to_string()),
        Event::Payload(Payload::Golfers(GolfersResponse { golfers: vec![row("123", 1, "Dunes")] })),
        Event::Transport("lost".to_string()),
    ]
}

#[test]
fn no_sequence_of_events_gets_more_than_the_ceiling_allows() {
    let events = alphabet();
    let n = events.len();
    for start in 0u8..4 {
        let allowed = if start < ATTEMPT_CEILING { (ATTEMPT_CEILING - start) as usize } else { 0 };
        let mut word = vec![0usize; 5];
        'words: loop {
            let mut call = Call::new(lookup("123"), start);
            let mut requests = 0;
            let mut logins = 0;
            let mut last = start;
            for &i in &word {
                let before = call.clone();
                match call.step(events[i].clone()) {
                    Some(Action::Issue) => requests += 1,
                    Some(Action::Login) => logins += 1,
                    Some(_) => {}
                    None => assert_eq!(call, before),
                }
                assert!(call.attempts() >= last);
                last = call.attempts();
                assert!(logins <= requests);
            }
            assert!(requests <= allowed);
            assert!(last <= ATTEMPT_CEILING.max(start));
            let mut k = 0;
            loop {
                if k == word.len() {
                    break 'words;
                }
                word[k] += 1;
                if word[k] < n {
                    break;
                }
                word[k] = 0;
                k += 1;
            }
        }
    }
}
