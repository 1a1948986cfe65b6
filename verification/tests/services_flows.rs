use projectx::config::AppConfig;
use projectx::db::{DatabaseError, DbError};
use projectx::endpoints::{RefreshAction, RefreshEvent, RefreshState};
use projectx::entities::{Provider, Session, User};
use projectx::error::{app_error, AppError, ErrorDetail, ErrorKind};
use projectx::jwt::RefreshClaims;
use projectx::models::{SignInProviderRequest, UserUpdateRequest};
use projectx::services::{
    existing_user, new_session_at, passkey_added, passkey_found, passkey_updated, passkeys_found,
    password_to_hash, session_created, session_deleted, session_found, updated_user, user_added,
    user_deleted, user_found, user_updated, with_hashed_password, ProviderSigninAction,
    ProviderSigninEvent, ProviderSigninState,
};
use projectx::token::{generate_token_pair, TokenError};

const NOW: i64 = 1_700_000_000_000_000;

fn status_and_text(e: &AppError) -> (u16, String) {
    let (s, d) = match e {
        AppError::NotFound(d) => (404, d),
        AppError::BadRequest(d) => (400, d),
        AppError::Internal(d) => (500, d),
        AppError::Conflict(d) => (409, d),
        AppError::Unauthorized(d) => (401, d),
        AppError::Forbidden(d) => (403, d),
    };
    match d {
        ErrorDetail::Message(m) => (s, m.clone()),
        _ => (s, String::new()),
    }
}

fn err<T>(r: Result<T, AppError>) -> (u16, String) {
    match r {
        Err(e) => status_and_text(&e),
        Ok(_) => panic!("expected an error"),
    }
}

fn account(id: u128, email: &str) -> User {
    let mut u = User::new("Ann".into(), email.into(), None, None, "user".into());
    u.id = id;
    u
}

fn db_error(code: Option<&str>) -> DbError {
    DbError::Database(DatabaseError {
        code: code.map(|c| c.to_string()),
        unique_violation: code == Some("23505"),
        check_violation: false,
        foreign_key_violation: false,
    })
}

#[test]
fn single_call_mappings() {
    assert_eq!(err(user_found(Err(DbError::RowNotFound))), (404, "user not found".into()));
    assert_eq!(user_found(Ok(account(3, "a"))).ok().unwrap().id, 3);
    assert_eq!(err(session_created(Err(DbError::Other))), (500, "failed to create session".into()));
    let mut s = Session::new("ip".into(), "ua".into(), 1, 2);
    s.id = 99;
    assert_eq!(session_created(Ok(s)).ok().unwrap(), 99);
    assert_eq!(err(session_deleted(Err(DbError::Other))), (500, "failed to delete session".into()));
    assert_eq!(err(session_found(Err(DbError::RowNotFound))), (404, "session not found".into()));
    assert_eq!(err(passkey_added(Err(DbError::Other))), (400, "failed to add passkey".into()));
    assert_eq!(err(passkeys_found(Err(DbError::Other))), (404, "Passkey not found".into()));
    assert_eq!(err(passkey_found(Err(DbError::RowNotFound))), (404, "Passkey not found".into()));
    assert_eq!(err(passkey_updated(Err(DbError::Other))), (500, "failed to update passkey".into()));
    assert!(passkeys_found(Ok(vec![])).ok().unwrap().is_empty());
}

#[test]
fn sessions_last_the_refresh_lifetime() {
    let s = new_session_at(4, "curl".into(), "10.0.0.1".into(), NOW, 2_592_000);
    assert_eq!(s.id, 0);
    assert_eq!(s.user_id, 4);
    assert_eq!(s.expires_at, NOW + 2_592_000 * 1_000_000);
}

#[test]
fn add_user_hashes_then_maps_conflicts() {
    let mut u = account(0, "a@b.c");
    assert!(password_to_hash(&u).is_none());
    u.password = Some("plain".into());
    assert_eq!(password_to_hash(&u).as_deref(), Some("plain"));
    let stored = with_hashed_password(u, Ok("$2b$hash".into())).ok().unwrap();
    assert_eq!(stored.password.as_deref(), Some("$2b$hash"));
    assert_eq!(err(with_hashed_password(account(0, "x"), Err(()))), (500, "failed to create user".into()));
    assert!(user_added(Ok(())).is_ok());
    assert_eq!(err(user_added(Err(db_error(Some("23505"))))), (409, "already exists".into()));
    assert_eq!(err(user_added(Err(db_error(Some("23503"))))), (400, "failed to create user".into()));
    assert_eq!(err(user_added(Err(db_error(None)))), (400, "failed to create user".into()));
    assert_eq!(err(user_added(Err(DbError::Other))), (400, "failed to create user".into()));
}

#[test]
fn update_and_delete_need_the_account() {
    assert_eq!(err(existing_user(Err(DbError::RowNotFound))), (404, "User not found".into()));
    let mut current = account(8, "a@b.c");
    current.failed_login_count = 2;
    let u = updated_user(current, UserUpdateRequest { name: "Zed".into() });
    assert_eq!((u.id, u.name.as_str(), u.email.as_str(), u.failed_login_count), (8, "Zed", "a@b.c", 2));
    assert_eq!(err(user_updated(Err(DbError::Other))), (500, "Failed to update user".into()));
    assert_eq!(err(user_deleted(Err(DbError::Other))), (500, "Failed to delete user".into()));
    assert!(user_deleted(Ok(())).is_ok());
}

fn creds() -> SignInProviderRequest {
    SignInProviderRequest {
        email: "ann@x.io".into(),
        name: "Ann".into(),
        account_id: "gh-1".into(),
        image: "pic".into(),
    }
}

#[test]
fn known_provider_account_signs_in_its_user() {
    let (state, action) = ProviderSigninState::start("github".into(), creds());
    match action {
        ProviderSigninAction::FindLink { account_id } => assert_eq!(account_id, "gh-1"),
        _ => panic!(),
    }
    let link = Provider::new_at("github".into(), "gh-1".into(), 12, 0);
    let (state, action) = state.step(ProviderSigninEvent::LinkFound(Ok(link)), NOW);
    assert!(matches!(action, ProviderSigninAction::FindUserById(12)));
    let (_, action) = state.step(ProviderSigninEvent::LinkedUserFound(Ok(account(12, "ann@x.io"))), NOW);
    match action {
        ProviderSigninAction::Reply(Ok(u)) => assert_eq!(u.id, 12),
        _ => panic!(),
    }
}

#[test]
fn new_provider_account_creates_and_links_a_user() {
    let (state, _) = ProviderSigninState::start("github".into(), creds());
    let (state, action) = state.step(ProviderSigninEvent::LinkFound(Err(DbError::RowNotFound)), NOW);
    match action {
        ProviderSigninAction::AddUser(u) => {
            assert_eq!(u.name, "Ann");
            assert_eq!(u.email, "ann@x.io");
            assert!(u.password.is_none());
            assert_eq!(u.image.as_deref(), Some("pic"));
            assert_eq!(u.role, "user");
            assert!(u.email_verified);
        }
        _ => panic!(),
    }
    let (state, action) =
        state.step(ProviderSigninEvent::UserAdded(Err(app_error(ErrorKind::Conflict, "already exists"))), NOW);
    match action {
        ProviderSigninAction::FindUserByEmail(e) => assert_eq!(e, "ann@x.io"),
        _ => panic!(),
    }
    let (state, action) = state.step(ProviderSigninEvent::NewUserFound(Ok(account(21, "ann@x.io"))), NOW);
    match action {
        ProviderSigninAction::CreateLink(p) => {
            assert_eq!((p.user_id, p.created_at), (21, NOW));
            assert_eq!((p.name.as_str(), p.account_id.as_str()), ("github", "gh-1"));
        }
        _ => panic!(),
    }
    let (_, action) = state.step(ProviderSigninEvent::Linked(Err(DbError::Other)), NOW);
    match action {
        ProviderSigninAction::Reply(r) => assert_eq!(err(r), (500, "failed to create user".into())),
        _ => panic!(),
    }
}

#[test]
fn provider_lookup_failure_is_internal() {
    let (state, _) = ProviderSigninState::start("github".into(), creds());
    let (_, action) = state.step(ProviderSigninEvent::LinkFound(Err(DbError::Other)), NOW);
    match action {
        ProviderSigninAction::Reply(r) => assert_eq!(err(r), (500, "provider not found".into())),
        _ => panic!(),
    }
}

fn config() -> AppConfig {
    AppConfig::load(Some("db".into()), Some("key".into()))
}

#[test]
fn refresh_grants_new_tokens_for_a_live_session() {
    let claims = RefreshClaims::new_at(5, 2_592_000, 77, NOW, 1);
    let (state, action) = RefreshState::start(Some(claims), NOW + 1);
    assert!(matches!(action, RefreshAction::FindSession(77)));
    let mut session = Session::new("ip".into(), "ua".into(), 5, NOW + 10);
    session.id = 77;
    let (state, action) = state.step(RefreshEvent::SessionFound(Ok(session)), NOW + 2, &config());
    assert!(matches!(action, RefreshAction::FindUser(5)));
    let (state, action) = state.step(RefreshEvent::UserFound(Ok(account(5, "e@x.y"))), NOW + 3, &config());
    match action {
        RefreshAction::IssueTokens { user_id, email, role, jti } => {
            assert_eq!((user_id, jti), (5, 77));
            assert_eq!((email.as_str(), role.as_str()), ("e@x.y", "user"));
        }
        _ => panic!(),
    }
    let tokens = generate_token_pair("A".into(), "R".into());
    let (_, action) = state.step(RefreshEvent::TokensIssued(Ok(tokens)), NOW + 4, &config());
    match action {
        RefreshAction::Reply(Ok(reply)) => {
            assert_eq!(reply.tokens.access_token, "A");
            assert_eq!(reply.access_cookie.name, "m_session");
            assert_eq!(reply.access_cookie.max_age, 900);
            assert_eq!(reply.refresh_cookie.name, "m_refresh");
            assert_eq!(reply.refresh_cookie.value, "R");
            assert_eq!(reply.refresh_cookie.max_age, 2_592_000);
        }
        _ => panic!(),
    }
}

#[test]
fn refresh_refusals() {
    let (_, action) = RefreshState::start(None, NOW);
    match action {
        RefreshAction::Reply(r) => assert_eq!(err(r), (400, "invalid/expired refresh token".into())),
        _ => panic!(),
    }
    let claims = RefreshClaims::new_at(5, 60, 77, NOW, 1);
    let (_, action) = RefreshState::start(Some(claims), NOW + 61_000_000);
    assert!(matches!(action, RefreshAction::Reply(Err(AppError::BadRequest(_)))));
    let claims = RefreshClaims::new_at(5, 600, 77, NOW, 1);
    let (state, _) = RefreshState::start(Some(claims), NOW);
    let mut session = Session::new("ip".into(), "ua".into(), 5, NOW);
    session.id = 77;
    let (_, action) = state.step(RefreshEvent::SessionFound(Ok(session)), NOW + 1, &config());
    match action {
        RefreshAction::Reply(r) => assert_eq!(err(r), (400, "invalid/expired refresh token".into())),
        _ => panic!(),
    }
    let (_, action) = RefreshState::FindingUser { claims: RefreshClaims::new_at(5, 600, 77, NOW, 1) }
        .step(RefreshEvent::UserFound(Err(DbError::RowNotFound)), NOW, &config());
    match action {
        RefreshAction::Reply(r) => assert_eq!(err(r), (404, "User not found".into())),
        _ => panic!(),
    }
    let (_, action) = RefreshState::Issuing.step(RefreshEvent::TokensIssued(Err(TokenError::InvalidType)), NOW, &config());
    match action {
        RefreshAction::Reply(r) => assert_eq!(err(r), (401, "failed to generate token".into())),
        _ => panic!(),
    }
}
