use projectx::db::{DatabaseError, DbError};
use projectx::endpoints::{
    client_user_agent, passkey_session_cookie, registration_owner_id, registration_state_id,
    registration_state_key, require_passkeys, session_cookies, signin_state_key,
    stored_ceremony_state, token_pair_issued, user_id_of_state_token,
};
use projectx::config::AppConfig;
use projectx::error::{AppError, ErrorDetail};
use projectx::identity::{
    find_user_by_email_reply, g_user_from, login_claims, login_reply, lookup_status, map_error,
    write_outcome, GrpcCode, LoginResponseDto, User,
};
use projectx::password::{hash_password, verify_password};
use projectx::token::{generate_token_pair, TokenError};

const USER: u128 = 0x67e5504410b1426f9247bb680e5fe0c8;

fn text_of(r: Result<String, AppError>) -> String {
    match r {
        Err(AppError::Internal(ErrorDetail::Message(m))) => format!("500 {m}"),
        Err(AppError::Unauthorized(ErrorDetail::Message(m))) => format!("401 {m}"),
        Err(AppError::NotFound(ErrorDetail::Message(m))) => format!("404 {m}"),
        Err(_) => "other".into(),
        Ok(s) => s,
    }
}

#[test]
fn registration_state_token_names_its_user() {
    let token = registration_state_id(1, USER);
    assert_eq!(token, "00000000-0000-0000-0000-000000000001:67e55044-10b1-426f-9247-bb680e5fe0c8");
    let owner = user_id_of_state_token(&token).ok().unwrap();
    assert_eq!(owner, "67e55044-10b1-426f-9247-bb680e5fe0c8");
    assert_eq!(registration_owner_id(&owner), Some(USER));
    assert_eq!(registration_owner_id("not-a-uuid"), None);
}

#[test]
fn malformed_state_tokens() {
    assert_eq!(text_of(user_id_of_state_token("no-colon")), "500 invalid state token");
    assert_eq!(text_of(user_id_of_state_token("a:b:c")), "500 invalid state token");
    assert_eq!(text_of(user_id_of_state_token(":")), "");
    assert_eq!(text_of(user_id_of_state_token("ab:cd")), "cd");
}

#[test]
fn ceremony_keys_and_state() {
    assert_eq!(registration_state_key("t"), "webauthn:reg:t");
    assert_eq!(signin_state_key("t"), "webauthn:signin:t");
    assert_eq!(text_of(stored_ceremony_state(Ok(Some("s".into())))), "s");
    assert_eq!(text_of(stored_ceremony_state(Ok(None))), "401 registration state not found");
    assert_eq!(text_of(stored_ceremony_state(Err(()))), "500 redis error");
    assert!(require_passkeys(1).is_ok());
    assert!(matches!(require_passkeys(0), Err(AppError::Internal(_))));
}

#[test]
fn sign_in_reply_parts() {
    assert_eq!(client_user_agent(Some("curl/8")), "curl/8");
    assert_eq!(client_user_agent(None), "unknown");
    let config = AppConfig::load(Some("d".into()), Some("k".into()));
    let tokens = generate_token_pair("A".into(), "R".into());
    let (a, r) = session_cookies(&tokens, &config);
    assert_eq!((a.name.as_str(), a.value.as_str(), a.max_age), ("m_session", "A", 900));
    assert_eq!((r.name.as_str(), r.value.as_str(), r.max_age), ("m_refresh", "R", 2_592_000));
    let g = passkey_session_cookie("{}".into());
    assert_eq!((g.name.as_str(), g.max_age), ("g_id", 900));
    assert!(matches!(token_pair_issued(Err(TokenError::ValidationFailed)), Err(AppError::Unauthorized(_))));
    assert_eq!(token_pair_issued(Ok(tokens)).ok().unwrap().token_type, "Bearer");
}

#[test]
fn bcrypt_round_trip() {
    let hash = hash_password("correct horse").ok().unwrap();
    assert!(hash.starts_with("$2b$12$"));
    assert!(verify_password("correct horse", &hash).ok().unwrap());
    assert!(!verify_password("wrong", &hash).ok().unwrap());
    assert!(verify_password("x", "not a hash").is_err());
}

#[test]
fn identity_error_mapping() {
    let db = |u: bool, c: bool, f: bool| {
        DbError::Database(DatabaseError { code: None, unique_violation: u, check_violation: c, foreign_key_violation: f })
    };
    let s = map_error(db(true, true, true));
    assert_eq!((s.code, s.message.as_str()), (GrpcCode::AlreadyExists, "already exists"));
    let s = map_error(db(false, true, false));
    assert_eq!((s.code, s.message.as_str()), (GrpcCode::InvalidArgument, "pre check failed"));
    let s = map_error(db(false, false, true));
    assert_eq!((s.code, s.message.as_str()), (GrpcCode::InvalidArgument, "foreign key violation"));
    let s = map_error(db(false, false, false));
    assert_eq!((s.code, s.message.as_str()), (GrpcCode::Internal, "failed to insert"));
    let s = map_error(DbError::RowNotFound);
    assert_eq!((s.code, s.message.as_str()), (GrpcCode::Internal, "failed to create user"));
    assert!(write_outcome(Ok(())).is_ok());
    assert_eq!(lookup_status(&DbError::RowNotFound), 404);
    assert_eq!(lookup_status(&DbError::Other), 500);
}

#[test]
fn identity_records_and_login() {
    let g = g_user_from(User::new("Bob".into(), "bob@example.com".into(), "h".into()));
    assert_eq!(g.id, "ffffffff-ffff-ffff-ffff-ffffffffffff");
    let mut u = User::new("Bob".into(), "bob@example.com".into(), "h".into());
    u.id = Some("abc".into());
    assert_eq!(g_user_from(u).id, "abc");
    let r = find_user_by_email_reply(Err(404));
    match r {
        Err(s) => assert_eq!((s.code, s.message.as_str()), (GrpcCode::NotFound, "User not found")),
        Ok(_) => panic!(),
    }
    let bob = || User::new("Bob".into(), "bob@example.com".into(), "h".into());
    let c = login_claims("bob@example.com".into(), Ok(bob()), Ok(false)).ok().unwrap();
    assert_eq!((c.sub.as_str(), c.exp), ("bob@example.com", 900));
    let e = login_claims("bob".into(), Err(404), Ok(true)).err().unwrap();
    assert_eq!((e.code, e.message.as_str()), (GrpcCode::Unauthenticated, "Invalid username or password"));
    assert!(login_claims("bob".into(), Ok(bob()), Err(())).is_err());
    let reply = login_reply("a".into(), "r".into());
    let dto = LoginResponseDto::from_reply(reply);
    assert_eq!((dto.expire_in, dto.token_type.as_str()), (900, "Bearer"));
}
