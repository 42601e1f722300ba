use ghin::token::{DefaultTokenData, Token};

#[test]
fn new_cell_holds_the_empty_token() {
    let cell = Token::new();
    assert_eq!(cell.token(), "");
    assert_eq!(Token::default().token(), "");
}

#[test]
fn set_token_replaces_the_token() {
    let mut cell = Token::new();
    assert!(cell.set_token("first".to_string()).is_ok());
    assert_eq!(cell.token(), "first");
    assert!(cell.set_token("second".to_string()).is_ok());
    assert_eq!(cell.token(), "second");
}

#[test]
fn token_data_gives_its_text() {
    let data = DefaultTokenData::new("abc.def".to_string());
    assert_eq!(data.to_string(), "abc.def");
    assert_eq!(data.clone().to_string(), "abc.def");
}

#[test]
fn login_puts_the_session_token_into_the_cell() {
    let mut cell = Token::new();
    cell.set_token("stale".to_string()).unwrap();
    assert!(cell.login(ghin::upstream::LoginResponse { token: "fresh".to_string() }).is_ok());
    assert_eq!(cell.token(), "fresh");
}
