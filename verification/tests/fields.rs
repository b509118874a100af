//! Validated fields, parsing, the auth-route decisions, and logging
//! helpers.

use security_gate::addr::{parse_ipv4, ClientAddr};
use security_gate::auth::api::{authenticate, authenticated, deauthenticate, Token};
use security_gate::auth::flow::{
    auth_begin, conclude_add_user, conclude_authenticate, conclude_deauthenticate, register_next,
    AddUserOutcome, AuthStep, CookieAction, NewUser, OpOutcome, RegisterOutcome, TokenOutcome,
};
use security_gate::auth::forms::{LoginForm, LoginFormError, PlainPassword, Username};
use security_gate::auth::requests::{AuthPayload, AuthRequest, EmptyPayload};
use security_gate::auth::responses::{AuthError, AuthSuccess};
use security_gate::content::data::{QueryStr, SearchForm};
use security_gate::content::gate::require_id;
use security_gate::content::responses::GetError;
use security_gate::errors::ResponseError;
use security_gate::ids::{parse_u32, CategoryId, OptId, UserId};
use security_gate::logging::{level_for_verbosity, LogLevel, ModifyResponseHeaders, RocketLogger};

#[test]
fn usernames_follow_the_announced_format() {
    assert!(Username::new("user_1".to_string()).is_ok());
    assert!(Username::new("A-b-9_Cd".to_string()).is_ok());
    // Too short, too long, or out of the alphabet.
    assert_eq!(
        Username::new("abc".to_string()).unwrap_err(),
        LoginFormError::InvalidUsername
    );
    assert!(Username::new("abcdefghijk".to_string()).is_err());
    assert!(Username::new("ab$cd".to_string()).is_err());
    assert!(Username::new("with space".to_string()).is_err());
}

#[test]
fn passwords_go_through_the_real_pattern() {
    assert!(PlainPassword::new("password1".to_string()).is_ok());
    assert!(PlainPassword::new("under_score_64".to_string()).is_ok());
    assert_eq!(
        PlainPassword::new("short".to_string()).unwrap_err(),
        LoginFormError::InvalidPassword
    );
    // A hyphen is not a word character.
    assert!(PlainPassword::new("pass-word-123".to_string()).is_err());
    // Sixty-five characters is one too many.
    let long = "a".repeat(65);
    assert!(PlainPassword::new(long).is_err());
    let just_right = "a".repeat(64);
    assert!(PlainPassword::new(just_right).is_ok());
}

#[test]
fn login_form_keeps_its_fields() {
    let u = Username::new("user_1".to_string()).ok();
    let form = LoginForm::new(u.clone(), None);
    assert_eq!(form.username().as_ref().map(|x| x.as_str()), Some("user_1"));
    assert!(form.password().is_none());
}

#[test]
fn tokens_round_trip() {
    let t = Token::new("abc123".to_string());
    assert_eq!(t.as_str(), "abc123");
    assert_eq!(t.into_inner(), "abc123");
}

#[test]
fn local_token_checks_accept() {
    let t = Token::new("abc123".to_string());
    assert_eq!(authenticated(&t), Ok(()));
    assert_eq!(deauthenticate(&t), Ok(()));
}

#[test]
fn the_placeholder_authenticate_grants_a_token() {
    let u = Username::new("user_1".to_string()).unwrap();
    let p = PlainPassword::new("password1".to_string()).unwrap();
    let t = authenticate(&u, &p).unwrap();
    assert_eq!(t.as_str(), "placeholder");
}

#[test]
fn queries_follow_the_announced_format() {
    assert!(QueryStr::new("hello world".to_string()).is_ok());
    assert!(QueryStr::new("bl\u{e5}b\u{e6}r".to_string()).is_ok());
    assert_eq!(
        QueryStr::new("x".to_string()).unwrap_err(),
        GetError::InvalidQuery
    );
    assert!(QueryStr::new("sixteen chars!!!".to_string()).is_err());
    assert!(QueryStr::new("semi;colon".to_string()).is_err());
}

#[test]
fn search_form_defaults_to_visible_results() {
    let q = QueryStr::new("hello".to_string()).unwrap();
    let payload = SearchForm { q: q.clone(), hidden: None }.into_payload();
    assert!(!payload.include_hidden);
    let payload = SearchForm { q, hidden: Some(true) }.into_payload();
    assert!(payload.include_hidden);
}

#[test]
fn decimal_parsing_is_exact() {
    assert_eq!(parse_u32("0"), Some(0));
    assert_eq!(parse_u32("007"), Some(7));
    assert_eq!(parse_u32("4294967295"), Some(u32::MAX));
    assert_eq!(parse_u32("4294967296"), None);
    assert_eq!(parse_u32(""), None);
    assert_eq!(parse_u32("12a"), None);
    assert_eq!(parse_u32("-1"), None);
}

#[test]
fn id_segments_parse_or_are_refused() {
    assert_eq!(CategoryId::parse("3"), Ok(CategoryId(3)));
    assert_eq!(CategoryId::parse("x"), Err(GetError::InvalidId));
    assert_eq!(UserId::parse("22"), Ok(UserId(22)));
    assert_eq!(OptId::<CategoryId>::parse(""), Ok(OptId(None)));
    assert_eq!(
        OptId::<CategoryId>::parse("4"),
        Ok(OptId(Some(CategoryId(4))))
    );
    assert_eq!(OptId::<CategoryId>::parse("4x"), Err(GetError::InvalidId));
    assert_eq!(require_id(Some(CategoryId(3))), Ok(CategoryId(3)));
    assert_eq!(
        require_id::<CategoryId>(None),
        Err(GetError::InvalidId)
    );
}

#[test]
fn dotted_quads_parse_or_are_refused() {
    assert_eq!(
        parse_ipv4("203.0.113.7"),
        Some(ClientAddr::from_octets(203, 0, 113, 7))
    );
    assert_eq!(parse_ipv4("0.0.0.0"), Some(ClientAddr::V4(0)));
    assert_eq!(
        parse_ipv4("255.255.255.255"),
        Some(ClientAddr::V4(u32::MAX))
    );
    assert_eq!(parse_ipv4("1.2.3"), None);
    assert_eq!(parse_ipv4("1.2.3.4.5"), None);
    assert_eq!(parse_ipv4("256.1.1.1"), None);
    assert_eq!(parse_ipv4("01.2.3.4"), None);
    assert_eq!(parse_ipv4("1..2.3"), None);
    assert_eq!(parse_ipv4(""), None);
    assert_eq!(parse_ipv4("a.b.c.d"), None);
}

#[test]
fn the_auth_route_refuses_an_unreadable_request() {
    let step = auth_begin(None, None);
    assert!(matches!(
        step,
        AuthStep::Finish(Err(ResponseError::Unauthenticated))
    ));
}

#[test]
fn deauthentication_needs_a_session_cookie() {
    let req = AuthRequest::Deauthenticate(EmptyPayload {});
    let step = auth_begin(Some(req.clone()), None);
    assert!(matches!(
        step,
        AuthStep::Finish(Err(ResponseError::Unauthenticated))
    ));
    let step = auth_begin(Some(req), Some(Token::new("abc".to_string())));
    assert!(matches!(step, AuthStep::CallDeauthenticate(_)));
}

#[test]
fn authentication_outcomes_drive_the_cookie() {
    let req = AuthRequest::Authenticate(AuthPayload {
        raw_username: "user_1".to_string(),
        raw_password: "password1".to_string(),
    });
    assert!(matches!(
        auth_begin(Some(req), None),
        AuthStep::CallAuthenticate(_)
    ));

    let granted = conclude_authenticate(TokenOutcome::Granted(Token::new("t".to_string())));
    assert!(matches!(granted.action, CookieAction::SetSession(_)));
    assert_eq!(granted.response, Ok(AuthSuccess::Authenticated));

    let denied = conclude_authenticate(TokenOutcome::Denied(AuthError::InvalidPassword));
    assert!(matches!(denied.action, CookieAction::KeepSession));
    assert_eq!(denied.response, Err(ResponseError::Unauthenticated));

    let unreachable = conclude_authenticate(TokenOutcome::Unreachable);
    assert_eq!(
        unreachable.response,
        Err(ResponseError::InternalServerError)
    );
}

#[test]
fn deauthentication_outcomes_drive_the_cookie() {
    let done = conclude_deauthenticate(OpOutcome::Done);
    assert!(matches!(done.action, CookieAction::ClearSession));
    assert_eq!(done.response, Ok(AuthSuccess::Deauthenticated));

    let unreachable = conclude_deauthenticate(OpOutcome::Unreachable);
    assert!(matches!(unreachable.action, CookieAction::KeepSession));
    assert_eq!(
        unreachable.response,
        Err(ResponseError::InternalServerError)
    );
}

#[test]
fn registration_runs_through_both_backends() {
    let new_user = NewUser {
        id: UserId(12),
        raw_username: "user_1".to_string(),
    };
    let next = register_next(RegisterOutcome::Registered(new_user));
    match next {
        security_gate::auth::flow::RegisterNext::CallAddUser(u) => assert_eq!(u.id, UserId(12)),
        _ => panic!("a registered user must be handed to the content service"),
    }
    assert!(matches!(
        register_next(RegisterOutcome::Unreachable),
        security_gate::auth::flow::RegisterNext::Fail(ResponseError::InternalServerError)
    ));
    assert_eq!(
        conclude_add_user(AddUserOutcome::Added),
        Ok(AuthSuccess::UserRegistered)
    );
    assert_eq!(
        conclude_add_user(AddUserOutcome::Fault),
        Err(ResponseError::InternalServerError)
    );
}

#[test]
fn log_levels_follow_verbosity() {
    assert_eq!(level_for_verbosity(0), LogLevel::Info);
    assert_eq!(level_for_verbosity(1), LogLevel::Debug);
    assert_eq!(level_for_verbosity(2), LogLevel::Trace);
    assert_eq!(level_for_verbosity(9), LogLevel::Trace);
}

#[test]
fn request_lines_name_the_caller() {
    assert_eq!(
        RocketLogger::request_line(Some("203.0.113.7"), "GET", "/api/categories"),
        "[203.0.113.7] GET /api/categories"
    );
    assert_eq!(
        RocketLogger::request_line(None, "POST", "/api/admin"),
        "[-.-.-.-] POST /api/admin"
    );
}

#[test]
fn the_security_headers_are_fixed() {
    assert_eq!(
        ModifyResponseHeaders::header_name(),
        "Content-Security-Policy"
    );
    assert!(ModifyResponseHeaders::header_value().contains("default-src 'none'"));
}
