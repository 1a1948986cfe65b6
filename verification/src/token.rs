//! Issuing and checking tokens. Encoding claims into a signed token and decoding a
//! token back into claims (JSON and HMAC, by `jsonwebtoken`) happen around these
//! functions; here stand the claims a token is issued with, the reply that carries a
//! token pair, and the checks that decoded claims must pass.

use vstd::prelude::*;
use crate::error::text;
use crate::jwt::{
    access_token_type, expired_at, max_expiry_second, refresh_token_type, AccessClaims, PassKeyClaims,
    RefreshClaims,
};
use crate::models::AccessTokenResponse;
use crate::time::{utc_now_micros, MAX_TIMESTAMP_MICROS};

verus! {

/// `jsonwebtoken::errors::Error`, the error of encoding a token.
#[verifier::external_type_specification]
#[verifier::external_body]
pub struct ExJwtError(jsonwebtoken::errors::Error);

/// Lifetime of an access token, in seconds (15 minutes).
pub const ACCESS_TOKEN_LIFETIME_SECONDS: i64 = 900;

/// Lifetime of a refresh token, in seconds (30 days).
pub const REFRESH_TOKEN_LIFETIME_SECONDS: i64 = 2_592_000;

/// Lifetime of a passkey sign-in token, in seconds.
pub const PASSKEY_TOKEN_LIFETIME_SECONDS: i64 = 30;

/// Why a token could not be issued or was refused.
#[derive(Debug)]
pub enum TokenError {
    EncodingFailed(jsonwebtoken::errors::Error),
    /// The token did not decode: bad signature, malformed, or past its `exp` claim.
    ValidationFailed,
    Expired,
    InvalidType,
}

impl From<jsonwebtoken::errors::Error> for TokenError {
    fn from(e: jsonwebtoken::errors::Error) -> (r: Self) {
        TokenError::EncodingFailed(e)
    }
}

impl vstd::std_specs::convert::FromSpecImpl<jsonwebtoken::errors::Error> for TokenError {
    open spec fn obeys_from_spec() -> bool {
        true
    }

    open spec fn from_spec(e: jsonwebtoken::errors::Error) -> Self {
        TokenError::EncodingFailed(e)
    }
}

/// What checking decoded access-token claims at instant `now` gives (`None` when the
/// token did not decode).
pub open spec fn access_check(decoded: Option<AccessClaims>, now: int) -> Result<AccessClaims, TokenError> {
    match decoded {
        None => Err(TokenError::ValidationFailed),
        Some(c) => if c.typ@ != access_token_type() {
            Err(TokenError::InvalidType)
        } else if expired_at(c.exp, now) {
            Err(TokenError::Expired)
        } else {
            Ok(c)
        },
    }
}

/// What checking decoded refresh-token claims at instant `now` gives.
pub open spec fn refresh_check(decoded: Option<RefreshClaims>, now: int) -> Result<RefreshClaims, TokenError> {
    match decoded {
        None => Err(TokenError::ValidationFailed),
        Some(c) => if c.typ@ != refresh_token_type() {
            Err(TokenError::InvalidType)
        } else if expired_at(c.exp, now) {
            Err(TokenError::Expired)
        } else {
            Ok(c)
        },
    }
}

/// What checking decoded passkey-token claims at instant `now` gives.
pub open spec fn passkey_check(decoded: Option<PassKeyClaims>, now: int) -> Result<PassKeyClaims, TokenError> {
    match decoded {
        None => Err(TokenError::ValidationFailed),
        Some(c) => if expired_at(c.exp, now) {
            Err(TokenError::Expired)
        } else {
            Ok(c)
        },
    }
}

/// Whether decoded access-token claims are accepted at instant `now`.
pub open spec fn access_claims_accepted(c: AccessClaims, now: int) -> bool {
    c.typ@ == access_token_type() && !expired_at(c.exp, now)
}

/// Whether decoded refresh-token claims are accepted at instant `now`.
pub open spec fn refresh_claims_accepted(c: RefreshClaims, now: int) -> bool {
    c.typ@ == refresh_token_type() && !expired_at(c.exp, now)
}

/// Claims of the access token of a sign-in, issued now (by the clock) for 15 minutes;
/// `None` when that expiry lies beyond the last instant a date-time can hold.
pub fn generate_access_claims(user_id: u128, email: String, role: String, jti: u128) -> (c:
    Option<AccessClaims>)
    ensures
        c matches Some(claims) ==> claims.issued_by_clock(
            user_id,
            email,
            role,
            ACCESS_TOKEN_LIFETIME_SECONDS as int,
            jti,
        ),
{
    AccessClaims::new(user_id, email, role, ACCESS_TOKEN_LIFETIME_SECONDS, jti)
}

/// Claims of the refresh token of a sign-in, issued now (by the clock) for 30 days in a
/// new token family; `None` when that expiry lies beyond the last instant a date-time
/// can hold.
pub fn generate_refresh_claims(user_id: u128, jti: u128) -> (c: Option<RefreshClaims>)
    ensures
        c matches Some(claims) ==> claims.issued_by_clock(
            user_id,
            REFRESH_TOKEN_LIFETIME_SECONDS as int,
            jti,
        ),
{
    RefreshClaims::new(user_id, REFRESH_TOKEN_LIFETIME_SECONDS, jti)
}

/// Claims of a passkey sign-in token for `id`, issued at `now` for 30 seconds.
pub fn generate_passkey_claims_at(id: u128, now: i64) -> (c: PassKeyClaims)
    requires
        crate::time::representable(now as int),
        now <= MAX_TIMESTAMP_MICROS - PASSKEY_TOKEN_LIFETIME_SECONDS * 1_000_000,
    ensures
        c.id == id,
        c.exp == crate::time::seconds_of(now as int) + PASSKEY_TOKEN_LIFETIME_SECONDS,
{
    PassKeyClaims::new_at(id, PASSKEY_TOKEN_LIFETIME_SECONDS, now)
}

/// Claims of a passkey sign-in token for `id`, issued now (by the clock) for 30 seconds;
/// `None` when that expiry lies beyond the last instant a date-time can hold.
pub fn generate_passkey_claims(id: u128) -> (c: Option<PassKeyClaims>)
    ensures
        c matches Some(claims) ==> claims.id == id && exists|now: int|
            crate::time::representable(now) && #[trigger] crate::time::seconds_of(now)
                + PASSKEY_TOKEN_LIFETIME_SECONDS == claims.exp,
{
    let now = utc_now_micros();
    if now > MAX_TIMESTAMP_MICROS - PASSKEY_TOKEN_LIFETIME_SECONDS * 1_000_000 {
        return None;
    }
    let claims = generate_passkey_claims_at(id, now);
    assert(crate::time::seconds_of(now as int) + PASSKEY_TOKEN_LIFETIME_SECONDS == claims.exp);
    Some(claims)
}

/// The reply that hands out a token pair: a bearer access token valid for 15 minutes.
pub fn generate_token_pair(access_token: String, refresh_token: String) -> (r:
    AccessTokenResponse)
    ensures
        r.access_token == access_token,
        r.refresh_token == refresh_token,
        r.token_type@ == "Bearer"@,
        r.expires_in == ACCESS_TOKEN_LIFETIME_SECONDS,
{
    AccessTokenResponse {
        access_token,
        refresh_token,
        token_type: text("Bearer"),
        expires_in: ACCESS_TOKEN_LIFETIME_SECONDS as u64,
    }
}

/// Checks decoded access-token claims at instant `now` (`None` when the token did not
/// decode): the token must be an access token, then must not have expired.
pub fn check_access_claims_at(decoded: Option<AccessClaims>, now: i64) -> (r: Result<
    AccessClaims,
    TokenError,
>)
    requires
        crate::time::representable(now as int),
    ensures
        decoded is None ==> r matches Err(TokenError::ValidationFailed),
        decoded matches Some(c) ==> {
            &&& c.typ@ != access_token_type() ==> (r matches Err(TokenError::InvalidType))
            &&& c.typ@ == access_token_type() && expired_at(c.exp, now as int) ==> (r matches Err(
                TokenError::Expired,
            ))
            &&& access_claims_accepted(c, now as int) ==> r == Ok::<AccessClaims, TokenError>(c)
        },
        r is Ok <==> (decoded matches Some(c) && access_claims_accepted(c, now as int)),
        r == access_check(decoded, now as int),
{
    match decoded {
        None => Err(TokenError::ValidationFailed),
        Some(claims) => {
            if claims.typ != text("access_token") {
                Err(TokenError::InvalidType)
            } else if claims.is_expired_at(now) {
                Err(TokenError::Expired)
            } else {
                Ok(claims)
            }
        },
    }
}

/// Checks decoded access-token claims now (by the clock); see [`check_access_claims_at`].
pub fn check_access_claims(decoded: Option<AccessClaims>) -> (r: Result<
    AccessClaims,
    TokenError,
>)
    ensures
        decoded is None ==> r matches Err(TokenError::ValidationFailed),
        decoded matches Some(c) && c.typ@ != access_token_type() ==> r matches Err(
            TokenError::InvalidType,
        ),
        r matches Ok(c) ==> decoded == Some(c) && c.typ@ == access_token_type() && c.exp >= crate::jwt::min_expiry_second(),
        decoded matches Some(c) ==> (c.typ@ == access_token_type() && c.exp >= max_expiry_second() ==> r == Ok::<AccessClaims, TokenError>(c)),
        r matches Err(TokenError::Expired) ==> decoded matches Some(c) && c.typ@ == access_token_type() && c.exp < max_expiry_second(),
        exists|now: int| crate::time::representable(now) && r == #[trigger] access_check(decoded, now),
{
    let now = utc_now_micros();
    let r = check_access_claims_at(decoded, now);
    assert(r == access_check(decoded, now as int));
    r
}

/// Checks decoded refresh-token claims at instant `now` (`None` when the token did not
/// decode): the token must be a refresh token, then must not have expired.
pub fn check_refresh_claims_at(decoded: Option<RefreshClaims>, now: i64) -> (r: Result<
    RefreshClaims,
    TokenError,
>)
    requires
        crate::time::representable(now as int),
    ensures
        decoded is None ==> r matches Err(TokenError::ValidationFailed),
        decoded matches Some(c) ==> {
            &&& c.typ@ != refresh_token_type() ==> (r matches Err(TokenError::InvalidType))
            &&& c.typ@ == refresh_token_type() && expired_at(c.exp, now as int) ==> (r matches Err(
                TokenError::Expired,
            ))
            &&& refresh_claims_accepted(c, now as int) ==> r == Ok::<RefreshClaims, TokenError>(
                c,
            )
        },
        r is Ok <==> (decoded matches Some(c) && refresh_claims_accepted(c, now as int)),
        r == refresh_check(decoded, now as int),
{
    match decoded {
        None => Err(TokenError::ValidationFailed),
        Some(claims) => {
            if claims.typ != text("refresh_token") {
                Err(TokenError::InvalidType)
            } else if claims.is_expired_at(now) {
                Err(TokenError::Expired)
            } else {
                Ok(claims)
            }
        },
    }
}

/// Checks decoded refresh-token claims now (by the clock); see [`check_refresh_claims_at`].
pub fn check_refresh_claims(decoded: Option<RefreshClaims>) -> (r: Result<
    RefreshClaims,
    TokenError,
>)
    ensures
        decoded is None ==> r matches Err(TokenError::ValidationFailed),
        decoded matches Some(c) && c.typ@ != refresh_token_type() ==> r matches Err(
            TokenError::InvalidType,
        ),
        r matches Ok(c) ==> decoded == Some(c) && c.typ@ == refresh_token_type() && c.exp >= crate::jwt::min_expiry_second(),
        decoded matches Some(c) ==> (c.typ@ == refresh_token_type() && c.exp >= max_expiry_second() ==> r == Ok::<RefreshClaims, TokenError>(c)),
        r matches Err(TokenError::Expired) ==> decoded matches Some(c) && c.typ@ == refresh_token_type() && c.exp < max_expiry_second(),
        exists|now: int| crate::time::representable(now) && r == #[trigger] refresh_check(decoded, now),
{
    let now = utc_now_micros();
    let r = check_refresh_claims_at(decoded, now);
    assert(r == refresh_check(decoded, now as int));
    r
}

/// Checks decoded passkey-token claims at instant `now` (`None` when the token did not
/// decode): the token must not have expired.
pub fn check_passkey_claims_at(decoded: Option<PassKeyClaims>, now: i64) -> (r: Result<
    PassKeyClaims,
    TokenError,
>)
    requires
        crate::time::representable(now as int),
    ensures
        decoded is None ==> r matches Err(TokenError::ValidationFailed),
        decoded matches Some(c) && expired_at(c.exp, now as int) ==> r matches Err(
            TokenError::Expired,
        ),
        decoded matches Some(c) ==> (!expired_at(c.exp, now as int) ==> r == Ok::<
            PassKeyClaims,
            TokenError,
        >(c)),
        r == passkey_check(decoded, now as int),
{
    match decoded {
        None => Err(TokenError::ValidationFailed),
        Some(claims) => {
            if claims.is_expired_at(now) {
                Err(TokenError::Expired)
            } else {
                Ok(claims)
            }
        },
    }
}

/// Checks decoded passkey-token claims now (by the clock); see [`check_passkey_claims_at`].
pub fn check_passkey_claims(decoded: Option<PassKeyClaims>) -> (r: Result<
    PassKeyClaims,
    TokenError,
>)
    ensures
        decoded is None ==> r matches Err(TokenError::ValidationFailed),
        r matches Ok(c) ==> decoded == Some(c) && c.exp >= crate::jwt::min_expiry_second(),
        decoded matches Some(c) ==> (c.exp >= max_expiry_second() ==> r == Ok::<PassKeyClaims, TokenError>(c)),
        r matches Err(TokenError::Expired) ==> decoded matches Some(c) && c.exp < max_expiry_second(),
        exists|now: int| crate::time::representable(now) && r == #[trigger] passkey_check(decoded, now),
{
    let now = utc_now_micros();
    let r = check_passkey_claims_at(decoded, now);
    assert(r == passkey_check(decoded, now as int));
    r
}

/// An access token is accepted from the moment it is issued until its lifetime has
/// passed, and refused as expired from the next second on.
pub proof fn lemma_access_token_accepted_until_expiry(
    c: AccessClaims,
    user_id: u128,
    email: String,
    role: String,
    expires_in: int,
    jti: u128,
    issued_at: int,
    now: int,
)
    requires
        c.issued(user_id, email, role, expires_in, jti, issued_at),
    ensures
        access_claims_accepted(c, now) <==> crate::time::seconds_of(now) <= crate::time::seconds_of(
            issued_at,
        ) + expires_in,
{
}

/// Refresh-token claims are never accepted where an access token is asked for, and
/// access-token claims never where a refresh token is asked for.
pub proof fn lemma_token_types_not_interchangeable(
    access: AccessClaims,
    refresh: RefreshClaims,
    now: int,
)
    requires
        access.typ@ == access_token_type(),
        refresh.typ@ == refresh_token_type(),
    ensures
        access.typ@ != refresh_token_type(),
        refresh.typ@ != access_token_type(),
{
    reveal_strlit("access_token");
    reveal_strlit("refresh_token");
    assert(access_token_type()[0] != refresh_token_type()[0]);
}

} // verus!
