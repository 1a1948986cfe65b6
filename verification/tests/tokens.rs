use projectx::time::{add_seconds, seconds_of_instant};
use projectx::jwt::{AccessClaims, PassKeyClaims, RefreshClaims};
use projectx::token::{
    check_access_claims, check_access_claims_at, check_passkey_claims_at, check_refresh_claims,
    check_refresh_claims_at, generate_access_claims, generate_passkey_claims,
    generate_passkey_claims_at, generate_refresh_claims, generate_token_pair, TokenError,
};

const NOW: i64 = 1_700_000_000_123_456;
const SECOND: i64 = 1_000_000;

#[test]
fn access_claims_issued_for_fifteen_minutes() {
    let c = AccessClaims::new_at(5, "a@b.c".into(), "user".into(), 900, 9, NOW);
    assert_eq!(c.sub, 5);
    assert_eq!(c.jti, 9);
    assert_eq!(c.iat, 1_700_000_000);
    assert_eq!(c.exp, 1_700_000_900);
    assert_eq!(c.typ, "access_token");
    assert_eq!(c.email, "a@b.c");
    assert_eq!(c.role, "user");
}

#[test]
fn refresh_claims_carry_family_and_type() {
    let c = RefreshClaims::new_at(5, 2_592_000, 9, NOW, 42);
    assert_eq!(c.family, 42);
    assert_eq!(c.typ, "refresh_token");
    assert_eq!(c.exp, 1_700_000_000 + 2_592_000);
}

#[test]
fn clock_claims_are_current() {
    let c = generate_access_claims(1, "e".into(), "r".into(), 2).unwrap();
    assert_eq!(c.exp - c.iat, 900);
    assert!(!c.is_expired());
    let r = generate_refresh_claims(1, 2).unwrap();
    assert_eq!(r.exp - r.iat, 2_592_000);
    assert_ne!(r.family, 0);
    assert_eq!((r.family >> 76) & 0xf, 4);
    let p = generate_passkey_claims(3).unwrap();
    assert_eq!(p.id, 3);
    assert!(!p.is_expired());
}

#[test]
fn passkey_claims_last_thirty_seconds() {
    let p = generate_passkey_claims_at(3, NOW);
    assert_eq!(p.exp, 1_700_000_030);
    assert!(check_passkey_claims_at(Some(PassKeyClaims { id: 3, exp: p.exp }), NOW + 30 * SECOND).is_ok());
    assert!(matches!(
        check_passkey_claims_at(Some(PassKeyClaims { id: 3, exp: p.exp }), NOW + 31 * SECOND),
        Err(TokenError::Expired)
    ));
    assert!(matches!(check_passkey_claims_at(None, NOW), Err(TokenError::ValidationFailed)));
}

#[test]
fn access_token_accepted_until_its_last_second() {
    let c = AccessClaims::new_at(5, "a".into(), "user".into(), 900, 9, NOW);
    let exp = c.exp;
    let ok = check_access_claims_at(Some(c), (exp) * SECOND + 999_999).unwrap();
    assert_eq!(ok.sub, 5);
    let c = AccessClaims::new_at(5, "a".into(), "user".into(), 900, 9, NOW);
    assert!(matches!(check_access_claims_at(Some(c), (exp + 1) * SECOND), Err(TokenError::Expired)));
}

#[test]
fn refresh_token_is_not_an_access_token() {
    let mut c = AccessClaims::new_at(5, "a".into(), "user".into(), 900, 9, NOW);
    c.typ = "refresh_token".into();
    assert!(matches!(check_access_claims_at(Some(c), NOW), Err(TokenError::InvalidType)));
    let mut r = RefreshClaims::new_at(5, 900, 9, NOW, 1);
    r.typ = "access_token".into();
    assert!(matches!(check_refresh_claims_at(Some(r), NOW), Err(TokenError::InvalidType)));
}

#[test]
fn undecodable_token_fails_validation() {
    assert!(matches!(check_access_claims(None), Err(TokenError::ValidationFailed)));
    assert!(matches!(check_refresh_claims(None), Err(TokenError::ValidationFailed)));
}

#[test]
fn wrong_type_is_checked_before_expiry() {
    let mut c = AccessClaims::new_at(5, "a".into(), "user".into(), 900, 9, NOW);
    c.typ = "other".into();
    c.exp = 0;
    assert!(matches!(check_access_claims_at(Some(c), NOW), Err(TokenError::InvalidType)));
}

#[test]
fn token_pair_is_bearer_for_fifteen_minutes() {
    let r = generate_token_pair("acc".into(), "ref".into());
    assert_eq!(r.access_token, "acc");
    assert_eq!(r.refresh_token, "ref");
    assert_eq!(r.token_type, "Bearer");
    assert_eq!(r.expires_in, 900);
}

#[test]
fn expiry_is_checked_in_whole_seconds() {
    let c = AccessClaims::new_at(5, "a".into(), "user".into(), 0, 9, NOW);
    assert!(!c.is_expired_at(NOW + 876_543));
    assert!(c.is_expired_at(NOW + 876_544));
}

#[test]
fn seconds_round_down_before_the_epoch() {
    assert_eq!(seconds_of_instant(0), 0);
    assert_eq!(seconds_of_instant(999_999), 0);
    assert_eq!(seconds_of_instant(-1), -1);
    assert_eq!(seconds_of_instant(-1_000_000), -1);
    assert_eq!(seconds_of_instant(-1_000_001), -2);
    assert_eq!(add_seconds(-5, 2), 1_999_995);
    let c = AccessClaims::new_at(1, "e".into(), "r".into(), 60, 2, -1_500_000);
    assert_eq!((c.iat, c.exp), (-2, 58));
}
