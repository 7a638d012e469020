use github_security_alerts::exchange::{
    interpret_token_response, parse_token_response, token_from_response, token_request_form,
    ExchangeError, TokenResponse,
};
use github_security_alerts::listener::{
    AuthorizationResult, ListenerEvent, ListenerReply, RedirectListener, CALLBACK_PATH,
};
use github_security_alerts::models::AppConfig;
use github_security_alerts::session::{
    choose_credential, start_oauth_flow, AuthError, IdentityResponse, SessionManager,
    DEFAULT_CLIENT_ID,
};

fn reply(status: u16, body: &str) -> IdentityResponse {
    IdentityResponse::Reply { status, body: body.to_string() }
}

fn manager_with(token: Option<&str>) -> SessionManager {
    let mut config = AppConfig::default();
    config.access_token = token.map(|t| t.to_string());
    config.selected_repos = vec!["octo/one".to_string()];
    SessionManager::new(config)
}

#[test]
fn scenario_code_callback_stores_session() {
    let mut m = manager_with(None);
    assert_eq!(m.begin_acquisition(), Ok(()));
    let mut l = RedirectListener::start(CALLBACK_PATH, 0, 60_000);
    let r = l.handle(ListenerEvent::Request { target: "/callback?code=abc123".to_string(), now_ms: 5 });
    assert_eq!(r, ListenerReply::Success);
    let code = m.authorization_received(l.outcome.clone().unwrap()).unwrap();
    assert_eq!(code, "abc123");
    let form = token_request_form("id", "secret", &code);
    assert_eq!(form[2], ("code".to_string(), "abc123".to_string()));
    let body = r#"{"access_token":"tok_1","token_type":"bearer","scope":"repo"}"#;
    let exchanged = interpret_token_response(200, body.to_string());
    assert_eq!(exchanged, Ok("tok_1".to_string()));
    let session = m.exchange_finished(exchanged, 42).unwrap();
    assert_eq!(session.access_token, "tok_1");
    assert_eq!(session.obtained_at_ms, 42);
    assert_eq!(m.get_token(), Some("tok_1".to_string()));
    assert!(!m.acquiring);
}

#[test]
fn scenario_error_callback_is_denied() {
    let mut m = manager_with(None);
    m.begin_acquisition().unwrap();
    let mut l = RedirectListener::start(CALLBACK_PATH, 0, 60_000);
    let target = "/callback?error=access_denied".to_string();
    l.handle(ListenerEvent::Request { target, now_ms: 5 });
    let r = m.authorization_received(l.outcome.clone().unwrap());
    assert_eq!(r, Err(AuthError::Denied("access_denied".to_string())));
    assert_eq!(m.get_token(), None);
    assert!(!m.acquiring);
}

#[test]
fn scenario_bad_token_is_rejected() {
    let mut m = manager_with(Some("good-token"));
    let r = m.set_token("bad-token".to_string(), reply(401, "{}"), 9);
    assert_eq!(r, Err(AuthError::InvalidToken));
    assert_eq!(m.get_token(), Some("good-token".to_string()));
}

#[test]
fn transport_failure_rejects_token() {
    let mut m = manager_with(None);
    let r = m.set_token("t".to_string(), IdentityResponse::Transport("dns".to_string()), 9);
    assert_eq!(r, Err(AuthError::InvalidToken));
    assert_eq!(m.get_token(), None);
}

#[test]
fn accepted_token_overwrites_session() {
    let mut m = manager_with(Some("old"));
    assert_eq!(m.set_token("new".to_string(), reply(200, "{}"), 9), Ok(()));
    assert_eq!(m.get_token(), Some("new".to_string()));
    assert_eq!(m.session().unwrap().obtained_at_ms, 9);
}

#[test]
fn second_acquisition_is_refused() {
    let mut m = manager_with(None);
    assert_eq!(m.begin_acquisition(), Ok(()));
    assert_eq!(m.begin_acquisition(), Err(AuthError::AcquisitionInProgress));
    assert_eq!(m.listener_failed("in use".to_string()), AuthError::PortUnavailable("in use".to_string()));
    assert_eq!(m.begin_acquisition(), Ok(()));
}

#[test]
fn timeout_and_cancel_end_attempt() {
    let mut m = manager_with(None);
    m.begin_acquisition().unwrap();
    assert_eq!(m.authorization_received(AuthorizationResult::TimedOut), Err(AuthError::TimedOut));
    m.begin_acquisition().unwrap();
    assert_eq!(m.authorization_received(AuthorizationResult::Cancelled), Err(AuthError::Cancelled));
    assert!(!m.acquiring);
}

#[test]
fn failed_exchange_keeps_prior_session() {
    let mut m = manager_with(Some("prior"));
    m.begin_acquisition().unwrap();
    let err = ExchangeError::Network("offline".to_string());
    let r = m.exchange_finished(Err(err.clone()), 3);
    assert_eq!(r, Err(AuthError::Exchange(err)));
    assert_eq!(m.get_token(), Some("prior".to_string()));
}

#[test]
fn exchange_errors() {
    assert_eq!(
        interpret_token_response(500, "boom".to_string()),
        Err(ExchangeError::Http { status: 500, body: "boom".to_string() })
    );
    assert_eq!(
        interpret_token_response(200, "{\"error\":\"bad_verification_code\"}".to_string()),
        Err(ExchangeError::MalformedResponse("{\"error\":\"bad_verification_code\"}".to_string()))
    );
    assert_eq!(
        interpret_token_response(200, "not json".to_string()),
        Err(ExchangeError::MalformedResponse("not json".to_string()))
    );
}

#[test]
fn token_fields_are_read() {
    let body = r#"{"access_token":"a","token_type":"bearer","scope":"repo,user","extra":1}"#;
    let t = parse_token_response(body).unwrap();
    assert_eq!(t.access_token, "a");
    assert_eq!(t.token_type, "bearer");
    assert_eq!(t.scope, "repo,user");
    assert_eq!(parse_token_response(r#"{"access_token":"a","scope":"s"}"#), None);
    let fields = Some(TokenResponse {
        access_token: "x".to_string(),
        token_type: "bearer".to_string(),
        scope: String::new(),
    });
    assert_eq!(token_from_response(201, "b".to_string(), fields), Ok("x".to_string()));
    assert_eq!(
        token_from_response(204, "b".to_string(), None),
        Err(ExchangeError::MalformedResponse("b".to_string()))
    );
}

#[test]
fn token_form_order() {
    let form = token_request_form("cid", "csecret", "the-code");
    let names: Vec<&str> = form.iter().map(|p| p.0.as_str()).collect();
    assert_eq!(names, vec!["client_id", "client_secret", "code", "redirect_uri"]);
    assert_eq!(form[0].1, "cid");
    assert_eq!(form[1].1, "csecret");
    assert_eq!(form[3].1, "http://localhost:8080/callback");
}

#[test]
fn identity_check_twice_gives_same_result() {
    let mut m = manager_with(Some("tok"));
    let ok = reply(200, r#"{"login":"octocat","name":null}"#);
    let first = m.current_identity(ok.clone());
    let second = m.current_identity(ok);
    assert_eq!(first, Ok(Some("octocat".to_string())));
    assert_eq!(first, second);

    let mut m = manager_with(Some("tok"));
    let bad = reply(401, "{}");
    let first = m.current_identity(bad.clone());
    let second = m.current_identity(bad);
    assert_eq!(first, Ok(None));
    assert_eq!(first, second);
}

#[test]
fn rejected_identity_clears_session() {
    let mut m = manager_with(Some("stale"));
    assert_eq!(m.current_identity(IdentityResponse::Transport("x".to_string())), Ok(None));
    assert_eq!(m.get_token(), None);
    let status = m.get_auth_status(reply(200, "{}")).unwrap();
    assert!(!status.authenticated);
    assert_eq!(status.username, None);
}

#[test]
fn unreadable_identity_is_an_error() {
    let mut m = manager_with(Some("tok"));
    assert_eq!(
        m.current_identity(reply(200, "[]")),
        Err(AuthError::UnreadableIdentity("[]".to_string()))
    );
    assert_eq!(m.get_token(), Some("tok".to_string()));
}

#[test]
fn auth_status_names_user() {
    let mut m = manager_with(Some("tok"));
    let status = m.get_auth_status(reply(200, r#"{"login":"mona"}"#)).unwrap();
    assert!(status.authenticated);
    assert_eq!(status.username, Some("mona".to_string()));
}

#[test]
fn logout_clears_token_and_selection() {
    let mut m = manager_with(Some("tok"));
    m.logout();
    assert_eq!(m.get_token(), None);
    assert!(m.get_selected_repos().is_empty());
    assert_eq!(m.require_token(), Err(AuthError::NotAuthenticated));
}

#[test]
fn selection_round_trip() {
    let mut m = manager_with(None);
    m.set_selected_repos(vec!["a/b".to_string(), "c/d".to_string()]);
    assert_eq!(m.get_selected_repos(), vec!["a/b".to_string(), "c/d".to_string()]);
}

#[test]
fn authorization_url_is_encoded() {
    assert_eq!(
        start_oauth_flow("Iv1.abc"),
        "https://github.com/login/oauth/authorize?client_id=Iv1.abc\
         &redirect_uri=http%3A%2F%2Flocalhost%3A8080%2Fcallback\
         &scope=repo%20read%3Auser%20read%3Aorg"
    );
}

#[test]
fn credential_choice() {
    let p = DEFAULT_CLIENT_ID;
    assert_eq!(choose_credential(Some("built"), Some("env".to_string()), p), "built");
    assert_eq!(choose_credential(Some(p), Some("env".to_string()), p), "env");
    assert_eq!(choose_credential(None, None, p), p);
}
