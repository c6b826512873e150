use skyeng_sync::auth::{
    classify_login_status, csrf_from_login_page, token_from_first_cookie, LoginInput, LoginPhase,
    Skyeng,
};
use skyeng_sync::errors::Error;
use skyeng_sync::token::{Expirable, Token};

const LOGIN_PAGE: &str = "<html><body><form>\
    <input type=\"hidden\" name=\"csrfToken\" value=\"csrf-abc123\">\
    <input type=\"text\" name=\"username\">\
    </form></body></html>";

#[test]
fn token_expiry_is_strict() {
    let t = Token::new("tok".to_string(), 1000);
    assert!(!t.is_expired_at(999));
    assert!(t.is_expired_at(1000));
    assert!(t.is_expired_at(1001));
}

#[test]
fn absent_token_is_already_expired() {
    let slot: Option<Token> = None;
    assert!(slot.is_expired_at(0));
    let held = Some(Token::new("tok".to_string(), 1000));
    assert!(!held.is_expired_at(999));
    assert!(held.is_expired_at(1000));
}

#[test]
fn expiry_against_the_wall_clock() {
    let eternal = Token::new("tok".to_string(), u128::MAX);
    assert!(!eternal.is_expired());
    let ancient = Token::new("tok".to_string(), 0);
    assert!(ancient.is_expired());
}

#[test]
fn fresh_token_is_reused_unchanged() {
    let t = Token::new("tok".to_string(), 1_644_763_320_000);
    let session = Skyeng::new_with_token(Some(t), "user".to_string(), "pass".to_string());
    let reused = session.ensure_valid_at(1_644_763_319_999).expect("fresh token expected");
    assert_eq!(reused.value, "tok");
    assert_eq!(reused.expires, 1_644_763_320_000);
}

#[test]
fn expired_or_absent_token_demands_login() {
    let t = Token::new("tok".to_string(), 1000);
    let session = Skyeng::new_with_token(Some(t), "user".to_string(), "pass".to_string());
    assert!(session.ensure_valid_at(1000).is_none());
    assert!(session.ensure_valid_at(5000).is_none());
    let empty = Skyeng::new("user".to_string(), "pass".to_string());
    assert!(empty.ensure_valid_at(0).is_none());
}

#[test]
fn csrf_is_scraped_from_login_page() {
    let csrf = csrf_from_login_page(LOGIN_PAGE).expect("csrf expected");
    assert_eq!(csrf, "csrf-abc123");
}

#[test]
fn csrf_element_missing_is_a_parsing_error() {
    let err = csrf_from_login_page("<html><body><p>no form here</p></body></html>").unwrap_err();
    match err {
        Error::HttpParsingError { message } => {
            assert_eq!(message, "Unable to find csrf element on the page")
        }
        other => panic!("unexpected error: {:?}", other),
    }
}

#[test]
fn csrf_value_missing_is_a_parsing_error() {
    let err = csrf_from_login_page("<html><input name=\"csrfToken\"></html>").unwrap_err();
    match err {
        Error::HttpParsingError { message } => {
            assert_eq!(message, "Unable to find value of csrf token element")
        }
        other => panic!("unexpected error: {:?}", other),
    }
}

#[test]
fn submit_statuses_are_classified() {
    assert!(classify_login_status(200).is_ok());
    assert!(classify_login_status(302).is_ok());
    assert!(matches!(
        classify_login_status(503),
        Err(Error::ServerError { .. })
    ));
    assert!(matches!(
        classify_login_status(403),
        Err(Error::UserError { .. })
    ));
}

#[test]
fn missing_jwt_cookie_is_a_server_error() {
    let err = token_from_first_cookie(None).unwrap_err();
    match err {
        Error::ServerError { message } => {
            assert_eq!(message, "jwt token was not found in response")
        }
        other => panic!("unexpected error: {:?}", other),
    }
}

#[test]
fn login_flow_reaches_a_token() {
    let phase = LoginPhase::start();
    let phase = phase.step(LoginInput::Page { html: LOGIN_PAGE.to_string() });
    let csrf = match &phase {
        LoginPhase::NeedSubmit { csrf } => csrf.clone(),
        other => panic!("expected NeedSubmit, got {:?}", other),
    };
    assert_eq!(csrf, "csrf-abc123");
    let phase = phase.step(LoginInput::SubmitStatus { status: 200 });
    assert!(matches!(phase, LoginPhase::NeedJwt));
    let phase = phase.step(LoginInput::JwtCookie {
        cookie: Some(("jwt-token".to_string(), 1_644_763_320_000)),
    });
    let token = match phase {
        LoginPhase::Done { token } => token,
        other => panic!("expected Done, got {:?}", other),
    };
    assert_eq!(token.value, "jwt-token");
    assert_eq!(token.expires, 1_644_763_320_000);

    let mut session = Skyeng::new("user".to_string(), "pass".to_string());
    session.on_token_update();
    let notify = session.complete_login(token);
    let delivered = notify.expect("observer notification expected");
    assert_eq!(delivered.value, "jwt-token");
    let stored = session.get_token().expect("token stored");
    assert_eq!(stored.value, "jwt-token");
}

#[test]
fn login_4xx_stores_nothing_and_fires_no_callback() {
    let mut session = Skyeng::new("user".to_string(), "bad-pass".to_string());
    session.on_token_update();

    let phase = LoginPhase::start();
    let phase = phase.step(LoginInput::Page { html: LOGIN_PAGE.to_string() });
    assert!(matches!(phase, LoginPhase::NeedSubmit { .. }));
    let phase = phase.step(LoginInput::SubmitStatus { status: 401 });
    match phase {
        LoginPhase::Failed { error } => match error {
            Error::UserError { message } => assert_eq!(message, "Bad credentials"),
            other => panic!("expected UserError, got {:?}", other),
        },
        other => panic!("expected Failed, got {:?}", other),
    }
    // the run never completed: no token was stored, no notification exists
    assert!(session.get_token().is_none());
}

#[test]
fn completing_login_without_observer_notifies_nobody() {
    let mut session = Skyeng::new("user".to_string(), "pass".to_string());
    let notify = session.complete_login(Token::new("tok".to_string(), 99));
    assert!(notify.is_none());
    assert_eq!(session.get_token().unwrap().value, "tok");
}
