use projectx::auth::{Admin, AppUser, AuthorizedUser, Moderator, OptionalAuthUser, RequireRole, Role};
use projectx::error::{app_error, AppError, ErrorDetail, ErrorKind, WebauthnError};
use projectx::jwt::AccessClaims;
use projectx::token::TokenError;

fn user(role: &str) -> AuthorizedUser {
    AuthorizedUser { id: 1, email: "a@b.c".into(), role: role.into(), jti: 2 }
}

fn text_of(e: &AppError) -> String {
    let d = match e {
        AppError::NotFound(d)
        | AppError::BadRequest(d)
        | AppError::Internal(d)
        | AppError::Conflict(d)
        | AppError::Unauthorized(d)
        | AppError::Forbidden(d) => d,
    };
    match d {
        ErrorDetail::Message(m) => m.clone(),
        ErrorDetail::ValidationErrors(_) => "<validation>".into(),
    }
}

#[test]
fn problem_details_by_kind() {
    let cases = [
        (ErrorKind::NotFound, 404, "Not Found"),
        (ErrorKind::BadRequest, 400, "Bad Request"),
        (ErrorKind::Internal, 500, "Internal Server Error"),
        (ErrorKind::Conflict, 409, "Conflict"),
        (ErrorKind::Unauthorized, 401, "Unauthorized"),
        (ErrorKind::Forbidden, 403, "Forbidden"),
    ];
    for (kind, status, title) in cases {
        let p = app_error(kind, "boom").into_problem_details();
        assert_eq!(p.status, status);
        assert_eq!(p.title, title);
        assert_eq!(p.problem_type, "https://tools.ietf.org/html/rfc9110#section-15.5.5");
        assert!(p.instance.is_none());
        match p.detail {
            Some(ErrorDetail::Message(m)) => assert_eq!(m, "boom"),
            _ => panic!("detail lost"),
        }
    }
}

#[test]
fn webauthn_errors_are_server_errors() {
    assert_eq!(WebauthnError::Unknown.into_reply(), (500, "Unknown Error"));
    assert_eq!(WebauthnError::CorruptSession.into_reply(), (500, "Corrupt Session"));
    assert_eq!(WebauthnError::UserNotFound.into_reply(), (500, "User Not Found"));
    assert_eq!(WebauthnError::UserHasNoCredentials.into_reply(), (500, "User Has No Credentials"));
}

#[test]
fn roles() {
    assert_eq!(AppUser::role(), "user");
    assert_eq!(Admin::role(), "admin");
    assert_eq!(Moderator::role(), "moderator");
    let u = user("admin");
    assert!(u.has_role("admin"));
    assert!(!u.has_role("Admin"));
    assert!(u.has_any_role(&["user", "admin"]));
    assert!(!u.has_any_role(&["user", "moderator"]));
    assert!(!u.has_any_role(&[]));
}

#[test]
fn role_guard_admits_only_the_role() {
    let ok = RequireRole::<Admin>::check(user("admin")).ok().unwrap();
    assert_eq!(ok.0.id, 1);
    let err = RequireRole::<Admin>::check(user("user")).err().unwrap();
    assert!(matches!(err, AppError::Forbidden(_)));
    assert_eq!(text_of(&err), "Forbidden");
    let err = RequireRole::<AppUser>::from_auth(Err(app_error(ErrorKind::Unauthorized, "Access denied")))
        .err()
        .unwrap();
    assert!(matches!(err, AppError::Unauthorized(_)));
}

#[test]
fn token_check_to_user() {
    let claims = AccessClaims::new_at(5, "e@x.y".into(), "user".into(), 900, 9, 0);
    let u = AuthorizedUser::from_token_check(Ok(claims)).ok().unwrap();
    assert_eq!((u.id, u.jti), (5, 9));
    assert_eq!(u.email, "e@x.y");
    let e = AuthorizedUser::from_token_check(Err(TokenError::Expired)).err().unwrap();
    assert!(matches!(e, AppError::Unauthorized(_)));
    assert_eq!(text_of(&e), "Access denied");
    let claims = AccessClaims::new_at(5, "e@x.y".into(), "admin".into(), 900, 9, 0);
    let u: AuthorizedUser = claims.into();
    assert_eq!(u.role, "admin");
}

#[test]
fn optional_user_never_refuses() {
    assert!(OptionalAuthUser::from_auth(Err(app_error(ErrorKind::Unauthorized, "x"))).0.is_none());
    assert_eq!(OptionalAuthUser::from_auth(Ok(user("user"))).0.unwrap().id, 1);
}
