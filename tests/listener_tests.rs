use github_security_alerts::listener::{
    classify_target_of, AuthorizationResult, CallbackKind, ListenerEvent, ListenerReply,
    RedirectListener, CALLBACK_PATH, FAILURE_PAGE_HEAD, FAILURE_PAGE_TAIL, SUCCESS_PAGE,
    WAITING_BODY,
};

fn request(target: &str, now_ms: u64) -> ListenerEvent {
    ListenerEvent::Request { target: target.to_string(), now_ms }
}

#[test]
fn code_callback_finishes_with_code() {
    let mut l = RedirectListener::start(CALLBACK_PATH, 0, 60_000);
    assert_eq!(l.handle(request("/favicon.ico", 5)), ListenerReply::Waiting);
    assert!(!l.is_finished());
    assert_eq!(l.handle(request("/callback?code=abc123", 10)), ListenerReply::Success);
    assert!(l.is_finished());
    assert_eq!(l.outcome, Some(AuthorizationResult::Code("abc123".to_string())));
}

#[test]
fn error_callback_finishes_with_denial() {
    let mut l = RedirectListener::start(CALLBACK_PATH, 0, 60_000);
    let reply = l.handle(request("/callback?error=access_denied", 10));
    assert_eq!(reply, ListenerReply::Failure("access_denied".to_string()));
    assert_eq!(l.outcome, Some(AuthorizationResult::Denied("access_denied".to_string())));
    let body = reply.body();
    assert_eq!(body, format!("{}access_denied{}", FAILURE_PAGE_HEAD, FAILURE_PAGE_TAIL));
    assert!(reply.is_html());
}

#[test]
fn malformed_callback_keeps_listening() {
    let mut l = RedirectListener::start(CALLBACK_PATH, 0, 60_000);
    assert_eq!(l.handle(request("/callback", 1)), ListenerReply::Waiting);
    assert_eq!(l.handle(request("/callback?state=xyz", 2)), ListenerReply::Waiting);
    assert_eq!(l.handle(request("/", 3)), ListenerReply::Waiting);
    assert!(!l.is_finished());
    assert_eq!(l.handle(request("/callback?code=c", 4)), ListenerReply::Success);
}

#[test]
fn only_one_terminal_outcome() {
    let mut l = RedirectListener::start(CALLBACK_PATH, 0, 60_000);
    assert_eq!(l.handle(request("/callback?code=first", 1)), ListenerReply::Success);
    assert_eq!(l.handle(request("/callback?code=second", 2)), ListenerReply::Nothing);
    assert_eq!(l.handle(request("/callback?error=late", 3)), ListenerReply::Nothing);
    assert_eq!(l.handle(ListenerEvent::Cancel), ListenerReply::Nothing);
    assert_eq!(l.handle(ListenerEvent::Tick { now_ms: 1_000_000 }), ListenerReply::Nothing);
    assert_eq!(l.outcome, Some(AuthorizationResult::Code("first".to_string())));
}

#[test]
fn cancel_finishes_listener() {
    let mut l = RedirectListener::start(CALLBACK_PATH, 0, 60_000);
    assert_eq!(l.handle(ListenerEvent::Cancel), ListenerReply::Nothing);
    assert!(l.is_finished());
    assert_eq!(l.outcome, Some(AuthorizationResult::Cancelled));
}

#[test]
fn deadline_times_listener_out() {
    let mut l = RedirectListener::start(CALLBACK_PATH, 100, 50);
    assert_eq!(l.handle(ListenerEvent::Tick { now_ms: 149 }), ListenerReply::Nothing);
    assert!(!l.is_finished());
    assert_eq!(l.handle(ListenerEvent::Tick { now_ms: 150 }), ListenerReply::Nothing);
    assert_eq!(l.outcome, Some(AuthorizationResult::TimedOut));
}

#[test]
fn request_after_deadline_times_out() {
    let mut l = RedirectListener::start(CALLBACK_PATH, 0, 10);
    assert_eq!(l.handle(request("/callback?code=late", 10)), ListenerReply::Nothing);
    assert_eq!(l.outcome, Some(AuthorizationResult::TimedOut));
}

#[test]
fn query_values_are_percent_decoded() {
    assert_eq!(
        classify_target_of("/callback", "/callback?code=a%20b%2Bc&state=1"),
        CallbackKind::Code("a b+c".to_string())
    );
    assert_eq!(
        classify_target_of("/callback", "/callback?error=access+denied"),
        CallbackKind::Denied("access denied".to_string())
    );
}

#[test]
fn code_wins_over_error_and_last_code_wins() {
    assert_eq!(
        classify_target_of("/callback", "/callback?error=x&code=one&code=two"),
        CallbackKind::Code("two".to_string())
    );
    assert_eq!(classify_target_of("/callback", "/other?code=x"), CallbackKind::NotTerminal);
}

#[test]
fn reply_bodies() {
    assert_eq!(ListenerReply::Waiting.body(), WAITING_BODY);
    assert_eq!(ListenerReply::Success.body(), SUCCESS_PAGE);
    assert_eq!(ListenerReply::Nothing.body(), "");
    assert!(!ListenerReply::Waiting.is_html());
}
