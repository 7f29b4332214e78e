use starfish::auth::{RefreshTokenClaims, SessionClaims, timestamp_from_micros, tokens_for};
use starfish::config::{Config, default_port};
use starfish::context::{RequestContext, bearer_token};
use starfish::failure::FailureReason;

#[test]
fn session_claims_expire_an_hour_after_issue() {
    let c = SessionClaims::new_at(1, 2, 1_700_000_000);
    assert_eq!((c.user_id, c.session_id, c.expires_at), (1, 2, 1_700_003_600));
}

#[test]
fn refresh_claims_expire_thirty_days_after_issue() {
    let c = RefreshTokenClaims::new_at(9, 1_700_000_000);
    assert_eq!((c.refresh_token_id, c.expires_at), (9, 1_700_000_000 + 30 * 86_400));
}

#[test]
fn claims_issued_now_expire_in_the_future() {
    let s = SessionClaims::new(1, 2).expect("the clock reads after 1970");
    let r = RefreshTokenClaims::new(3).expect("the clock reads after 1970");
    assert_eq!((s.user_id, s.session_id, r.refresh_token_id), (1, 2, 3));
    assert!(s.expires_at > 1_600_000_000 + 3600);
    assert!(r.expires_at > 1_600_000_000 + 2_592_000);
    assert!(r.expires_at >= s.expires_at + 2_592_000 - 3600);
}

#[test]
fn tokens_take_expiry_from_claims() {
    let s = SessionClaims::new_at(1, 2, 100);
    let r = RefreshTokenClaims::new_at(3, 100);
    let t = tokens_for(&s, &r, "a".to_string(), "b".to_string());
    assert_eq!(t.access_token, "a");
    assert_eq!(t.refresh_token, "b");
    assert_eq!(t.access_token_expires_at, 3700);
    assert_eq!(t.refresh_token_expires_at, 2_592_100);
}

#[test]
fn bearer_token_strips_scheme() {
    assert_eq!(bearer_token("Bearer abc.def"), Some("abc.def".to_string()));
    assert_eq!(bearer_token("Bearer "), Some(String::new()));
    assert_eq!(bearer_token("bearer abc"), None);
    assert_eq!(bearer_token("Basic abc"), None);
    assert_eq!(bearer_token("Bearer"), None);
    assert_eq!(bearer_token(""), None);
}

#[test]
fn context_from_claims() {
    let c = RequestContext::from_claims(Some(SessionClaims::new_at(5, 6, 0)));
    assert_eq!(c.user_id, Some(5));
    assert_eq!(c.session_id, Some(6));
    assert_eq!(c.require_user().ok(), Some(5));
    assert_eq!(c.require_session().ok(), Some(6));
}

#[test]
fn anonymous_context_is_unauthorized() {
    let c = RequestContext::from_claims(None);
    assert_eq!(c.user_id, None);
    let f = c.require_user().err().unwrap();
    assert_eq!(f.reason, FailureReason::UNAUTHORIZED);
    assert_eq!(f.message, "Requires authentication");
    let f = RequestContext::default().require_session().err().unwrap();
    assert_eq!(f.reason, FailureReason::UNAUTHORIZED);
}

#[test]
fn port_defaults_to_3333() {
    assert_eq!(default_port(), 3333);
    assert_eq!(Config::port_or_default(None), 3333);
    assert_eq!(Config::port_or_default(Some(8080)), 8080);
}

#[test]
fn clock_reading_in_whole_seconds() {
    assert_eq!(timestamp_from_micros(Some(1_700_000_000_999_999)), Some(1_700_000_000));
    assert_eq!(timestamp_from_micros(Some(999_999)), Some(0));
    assert_eq!(timestamp_from_micros(Some(9_000_000_000_000_999_999)), Some(9_000_000_000_000));
    assert_eq!(timestamp_from_micros(Some(9_000_000_000_001_000_000)), None);
    assert_eq!(timestamp_from_micros(None), None);
}
