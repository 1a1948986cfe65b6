use projectx::db::DbError;
use projectx::entities::User;
use projectx::error::{AppError, ErrorDetail};
use projectx::signin::{record_failed_attempt, SigninAction, SigninEvent, SigninRefusal, SigninState};

const MINUTE: i64 = 60_000_000;
const NOW: i64 = 1_700_000_000_000_000;

fn account(password: Option<&str>) -> User {
    let mut u = User::new(
        "Bob".to_string(),
        "bob@example.com".to_string(),
        password.map(|p| p.to_string()),
        None,
        "user".to_string(),
    );
    u.id = 7;
    u
}

fn message(e: &AppError) -> (&'static str, String) {
    let (kind, detail) = match e {
        AppError::NotFound(d) => ("404", d),
        AppError::BadRequest(d) => ("400", d),
        AppError::Internal(d) => ("500", d),
        AppError::Conflict(d) => ("409", d),
        AppError::Unauthorized(d) => ("401", d),
        AppError::Forbidden(d) => ("403", d),
    };
    match detail {
        ErrorDetail::Message(m) => (kind, m.clone()),
        ErrorDetail::ValidationErrors(_) => (kind, String::from("<validation>")),
    }
}

fn reply_error(action: SigninAction) -> (&'static str, String) {
    match action {
        SigninAction::Reply(Err(SigninRefusal::Rejected(e))) => message(&e),
        _ => panic!("expected a rejection"),
    }
}

#[test]
fn start_looks_up_account_by_email() {
    let (state, action) = SigninState::start("bob@example.com".into(), "secret".into());
    assert!(matches!(state, SigninState::LookingUp { .. }));
    match action {
        SigninAction::LookUpUser { email } => assert_eq!(email, "bob@example.com"),
        _ => panic!("expected a lookup"),
    }
}

#[test]
fn unknown_account_is_invalid_credentials() {
    let (state, _) = SigninState::start("x@example.com".into(), "secret".into());
    let (next, action) = state.step(SigninEvent::UserFound(Err(DbError::RowNotFound)), NOW, 10);
    assert!(matches!(next, SigninState::Finished));
    assert_eq!(reply_error(action), ("401", "invalid credentials".to_string()));
}

#[test]
fn locked_account_is_refused_with_time_left() {
    let mut user = account(Some("hash"));
    user.lockout_end = Some(NOW + 30_000_000);
    let (state, _) = SigninState::start("bob@example.com".into(), "secret".into());
    let (next, action) = state.step(SigninEvent::UserFound(Ok(user)), NOW, 10);
    assert!(matches!(next, SigninState::Finished));
    match action {
        SigninAction::Reply(Err(SigninRefusal::Locked { remaining_micros })) => {
            assert_eq!(remaining_micros, 30_000_000)
        }
        _ => panic!("expected a lockout"),
    }
}

#[test]
fn expired_lockout_lets_password_be_checked() {
    let mut user = account(Some("$2b$hash"));
    user.lockout_end = Some(NOW - 1);
    let (state, _) = SigninState::start("bob@example.com".into(), "secret".into());
    let (next, action) = state.step(SigninEvent::UserFound(Ok(user)), NOW, 10);
    assert!(matches!(next, SigninState::Verifying { .. }));
    match action {
        SigninAction::VerifyPassword { password, hash } => {
            assert_eq!(password, "secret");
            assert_eq!(hash, "$2b$hash");
        }
        _ => panic!("expected a password check"),
    }
}

#[test]
fn right_password_signs_in_unchanged_account() {
    let user = account(Some("h"));
    let state = SigninState::Verifying { user };
    let (next, action) = state.step(SigninEvent::PasswordChecked(Ok(true)), NOW, 10);
    assert!(matches!(next, SigninState::Finished));
    match action {
        SigninAction::Reply(Ok(u)) => {
            assert_eq!(u.id, 7);
            assert_eq!(u.failed_login_count, 0);
        }
        _ => panic!("expected a sign-in"),
    }
}

#[test]
fn hashing_failure_is_invalid_credentials() {
    let state = SigninState::Verifying { user: account(Some("h")) };
    let (_, action) = state.step(SigninEvent::PasswordChecked(Err(())), NOW, 10);
    assert_eq!(reply_error(action), ("401", "invalid credentials".to_string()));
}

#[test]
fn wrong_password_records_a_failure() {
    let mut user = account(Some("h"));
    user.failed_login_count = 3;
    let state = SigninState::Verifying { user };
    let (next, action) = state.step(SigninEvent::PasswordChecked(Ok(false)), NOW, 10);
    assert!(matches!(next, SigninState::Recording));
    match action {
        SigninAction::SaveUser(u) => {
            assert_eq!(u.failed_login_count, 4);
            assert_eq!(u.lockout_end, None);
        }
        _ => panic!("expected a save"),
    }
    let (_, reply) = SigninState::Recording.step(SigninEvent::AttemptRecorded(Ok(())), NOW, 10);
    assert_eq!(reply_error(reply), ("401", "invalid credentials".to_string()));
    let (_, reply) =
        SigninState::Recording.step(SigninEvent::AttemptRecorded(Err(DbError::Other)), NOW, 10);
    assert_eq!(reply_error(reply), ("500", "failed to signin".to_string()));
}

#[test]
fn tenth_failure_locks_for_a_minute() {
    let mut user = account(Some("h"));
    user.failed_login_count = 9;
    let u = record_failed_attempt(user, NOW, 10);
    assert_eq!(u.failed_login_count, 0);
    assert_eq!(u.lockout_end, Some(NOW + MINUTE));
}

#[test]
fn consecutive_failures_lock_the_account() {
    let mut user = account(Some("h"));
    for i in 0..10 {
        assert_eq!(user.lockout_end, None, "locked too early at {i}");
        user = record_failed_attempt(user, NOW + i, 10);
    }
    assert_eq!(user.lockout_end, Some(NOW + 9 + MINUTE));
    assert_eq!(user.failed_login_count, 0);
}

#[test]
fn old_failure_restarts_the_count() {
    let mut user = account(Some("h"));
    user.failed_login_count = 9;
    user.last_failed_attempted = Some(NOW - MINUTE - 1);
    let u = record_failed_attempt(user, NOW, 10);
    assert_eq!(u.failed_login_count, 1);
    assert_eq!(u.lockout_end, None);
}

#[test]
fn failure_exactly_a_minute_old_still_counts() {
    let mut user = account(Some("h"));
    user.failed_login_count = 9;
    user.last_failed_attempted = Some(NOW - MINUTE);
    let u = record_failed_attempt(user, NOW, 10);
    assert_eq!(u.failed_login_count, 0);
    assert_eq!(u.lockout_end, Some(NOW + MINUTE));
}
