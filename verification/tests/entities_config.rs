use projectx::config::{get_or_init, AppConfig};
use projectx::entities::{Challenge, Passkey, Provider, Session, User};
use projectx::health::{liveness, readiness, readiness_from, CheckResult};
use projectx::ids::{MAX_UUID, NIL_UUID};
use projectx::metrics::{record_request, status_text};
use projectx::cookie::set_cookie;

#[test]
fn new_user_is_active_and_unverified() {
    let u = User::new("n".into(), "e".into(), Some("p".into()), None, "user".into());
    assert_eq!(u.id, NIL_UUID);
    assert!(u.is_active);
    assert!(!u.email_verified);
    assert_eq!(u.failed_login_count, 0);
    assert!(u.lockout_end.is_none());
    let d = User::default();
    assert!(!d.is_active);
    assert_eq!(d.name, "");
}

#[test]
fn sessions_expire_strictly_after_their_end() {
    let mut s = Session::new("1.2.3.4".into(), "ua".into(), 9, 100);
    assert_eq!(s.id, NIL_UUID);
    s.id = 5;
    assert!(!s.is_expired_at(100));
    assert!(s.is_expired_at(101));
    s.expires_at = 0;
    assert!(s.is_expired());
}

#[test]
fn providers_and_passkeys_start_unstored() {
    let p = Provider::new_at("github".into(), "acc".into(), 3, 77);
    assert_eq!((p.id, p.user_id, p.created_at), (0, 3, 77));
    let p = Provider::new("github".into(), "acc".into(), 3);
    assert!(p.created_at > 0);
    let k = Passkey::new(4, vec![1, 2], serde_json::Value::from(1), None);
    assert_eq!((k.id, k.user_id, k.created_at), (0, 4, 0));
    assert_eq!(k.cred_id, vec![1, 2]);
    let c = Challenge::new(4, "ch".into(), Some(9));
    assert_eq!((c.created_at, c.expires_at), (0, Some(9)));
}

#[test]
fn uuid_texts() {
    let mut u = User::new("n".into(), "e".into(), None, None, "user".into());
    u.id = NIL_UUID;
    assert_eq!(projectx::models::UserResponse::from_user(u).id, "00000000-0000-0000-0000-000000000000");
    let mut u = User::new("n".into(), "e".into(), None, None, "user".into());
    u.id = MAX_UUID;
    assert_eq!(projectx::models::UserResponse::from_user(u).id, "ffffffff-ffff-ffff-ffff-ffffffffffff");
}

#[test]
fn config_is_loaded_once() {
    let mut cell = None;
    let first = get_or_init(&mut cell, Some("postgres://a".into()), Some("s3cret".into()));
    assert_eq!(first.database_url, "postgres://a");
    assert_eq!(first.access_token_expiry, 900);
    assert_eq!(first.refresh_token_expiry, 2_592_000);
    assert_eq!(first.max_lockout_num, 10);
    let second = get_or_init(&mut cell, Some("postgres://b".into()), None);
    assert_eq!(second.database_url, "postgres://a");
    assert_eq!(second.secret_key, "s3cret");
    let c = AppConfig::load(Some("d".into()), Some("k".into()));
    assert_eq!(c.secret_key, "k");
}

#[test]
fn health_probes() {
    assert_eq!(liveness(), "Healthy");
    let (code, body) = readiness();
    assert_eq!(code, 200);
    assert_eq!(body.status, "healthy");
    assert!(body.checks.is_empty());
    let failing = CheckResult { name: "database".into(), status: "unhealthy".into(), message: Some("down".into()) };
    let (code, body) = readiness_from(vec![failing], false);
    assert_eq!(code, 503);
    assert_eq!(body.status, "unhealthy");
    assert_eq!(body.checks.len(), 1);
}

#[test]
fn request_metrics() {
    let r = record_request("GET", "/me", 200);
    assert_eq!((r.method.as_str(), r.route.as_str(), r.status.as_str()), ("GET", "/me", "200"));
    assert!(!r.counts_as_error);
    assert!(record_request("POST", "/x", 500).counts_as_error);
    assert!(!record_request("POST", "/x", 499).counts_as_error);
    assert_eq!(status_text(0), "0");
    assert_eq!(status_text(7), "7");
    assert_eq!(status_text(65535), "65535");
}

#[test]
fn cookies_are_secure_site_wide() {
    let c = set_cookie("m_session".into(), "tok".into(), 900);
    assert_eq!(c.name, "m_session");
    assert_eq!(c.value, "tok");
    assert_eq!(c.path, "/");
    assert!(c.http_only && c.secure);
    assert_eq!(c.max_age, 900);
}
