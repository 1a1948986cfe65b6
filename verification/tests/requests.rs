use projectx::error::{AppError, ErrorDetail};
use projectx::models::{
    PassKeySignInRequest, PassKeySignInResponse, PassKeyVerifyRequest, UserResponse,
    UserUpdateRequest, WebAuthnSignInRequest, WebAuthnSignInResponse, WebAuthnVerifyRequest,
};
use projectx::entities::User;
use projectx::validation::{RegisterRequest, Validated};

fn form(name: &str, email: &str, password: &str) -> RegisterRequest {
    RegisterRequest { name: name.into(), email: email.into(), password: password.into() }
}

fn field_errors(r: Result<Validated<RegisterRequest>, AppError>) -> Vec<(String, Vec<String>)> {
    match r {
        Err(AppError::BadRequest(ErrorDetail::ValidationErrors(fields))) => {
            fields.into_iter().map(|f| (f.field, f.messages)).collect()
        }
        Err(_) => panic!("other error"),
        Ok(_) => vec![],
    }
}

#[test]
fn valid_form_passes_unchanged() {
    let v = Validated::<RegisterRequest>::from_parsed(Some(form("Bob", "bob@example.com", "secret")))
        .ok()
        .unwrap();
    assert_eq!(v.0.name, "Bob");
    assert_eq!(v.0.email, "bob@example.com");
}

#[test]
fn unparsed_body_is_bad_request() {
    match Validated::<RegisterRequest>::from_parsed(None) {
        Err(AppError::BadRequest(ErrorDetail::Message(m))) => assert_eq!(m, "Failed to parse JSON"),
        _ => panic!("expected a parse error"),
    }
}

#[test]
fn every_invalid_field_is_reported_in_order() {
    let errors = field_errors(Validated::<RegisterRequest>::from_parsed(Some(form("Bo", "bob", "12345"))));
    assert_eq!(
        errors,
        vec![
            ("email".to_string(), vec!["Invalid email format".to_string()]),
            ("name".to_string(), vec!["Name must be between 3 and 50 characters".to_string()]),
            ("password".to_string(), vec!["Password must be at least 6 characters".to_string()]),
        ]
    );
}

#[test]
fn length_limits_count_characters() {
    assert!(form("Zoë", "z@x.io", "ééééé é").validate().is_empty());
    let long_name: String = std::iter::repeat('n').take(51).collect();
    let errors = form(&long_name, "z@x.io", "secret").validate();
    assert_eq!(errors.len(), 1);
    assert_eq!(errors[0].field, "name");
    let fifty: String = std::iter::repeat('n').take(50).collect();
    assert!(form(&fifty, "z@x.io", "secret").validate().is_empty());
    let long_password: String = std::iter::repeat('p').take(101).collect();
    assert_eq!(form("Bob", "z@x.io", &long_password).validate()[0].field, "password");
}

#[test]
fn email_rules() {
    assert!(form("Bob", "weirder-email@here.and.there.com", "secret").validate().is_empty());
    assert_eq!(form("Bob", "", "secret").validate()[0].field, "email");
    assert_eq!(form("Bob", "a@b@", "secret").validate()[0].field, "email");
    assert_eq!(form("Bob", "no-at-sign.com", "secret").validate()[0].field, "email");
}

#[test]
fn register_form_becomes_a_user_account() {
    let u = form("Bob", "bob@example.com", "secret").into_user();
    assert_eq!(u.role, "user");
    assert_eq!(u.password.as_deref(), Some("secret"));
    assert_eq!(u.id, 0);
    assert!(!u.is_active);
}

#[test]
fn update_request_becomes_name_only_account() {
    let u = UserUpdateRequest { name: "New".into() }.into_user();
    assert_eq!(u.name, "New");
    assert_eq!(u.email, "");
    assert!(u.password.is_none());
}

#[test]
fn conversions_keep_fields() {
    let r: PassKeySignInRequest = WebAuthnSignInRequest { id: 77 }.into();
    assert_eq!(r.id, 77);
    let r: WebAuthnSignInResponse = PassKeySignInResponse { passkey_token: "t".into() }.into();
    assert_eq!(r.passkey_token, "t");
    let r: PassKeyVerifyRequest = WebAuthnVerifyRequest { passkey_token: "v".into() }.into();
    assert_eq!(r.passkey_token, "v");
}

#[test]
fn user_response_shows_hyphenated_id() {
    let mut u = User::new("Bob".into(), "b@x.y".into(), None, Some("img".into()), "admin".into());
    u.id = 0x67e5504410b1426f9247bb680e5fe0c8;
    u.created_at = Some(5);
    let r = UserResponse::from_user(u);
    assert_eq!(r.id, "67e55044-10b1-426f-9247-bb680e5fe0c8");
    assert_eq!(r.role, "admin");
    assert_eq!(r.image.as_deref(), Some("img"));
    assert_eq!(r.created_at, Some(5));
    assert_eq!(r.updated_at, None);
}
