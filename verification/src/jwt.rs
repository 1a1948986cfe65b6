//! The claims that access, refresh and passkey tokens carry. Instants in claims are
//! whole seconds since the epoch; `now` arguments are instants in microseconds.

use vstd::prelude::*;
use crate::error::text;
use crate::ids::new_uuid_v4;
use crate::time::{
    after_seconds, representable, seconds_of, seconds_of_instant, utc_now_micros,
    MAX_TIMESTAMP_MICROS, MIN_TIMESTAMP_MICROS,
};

verus! {

/// The `typ` claim of access tokens.
pub open spec fn access_token_type() -> Seq<char> {
    "access_token"@
}

/// The `typ` claim of refresh tokens.
pub open spec fn refresh_token_type() -> Seq<char> {
    "refresh_token"@
}

/// Whether claims issued at `now` with a lifetime of `expires_in` seconds have an expiry
/// that a date-time can hold.
pub open spec fn issuable(now: int, expires_in: int) -> bool {
    &&& representable(now)
    &&& representable(after_seconds(now, expires_in))
}

/// Whether a token that expires at second `exp` has expired at instant `now`.
pub open spec fn expired_at(exp: i64, now: int) -> bool {
    seconds_of(now) > exp
}

/// Seconds of `now + expires_in`: the expiry claim of a token issued at `now`.
fn expiry_second(now: i64, expires_in: i64) -> (exp: i64)
    requires
        issuable(now as int, expires_in as int),
    ensures
        exp == seconds_of(after_seconds(now as int, expires_in as int)),
        exp == seconds_of(now as int) + expires_in,
{
    let issued = seconds_of_instant(now);
    assert((now + expires_in * 1_000_000) / 1_000_000 == now / 1_000_000 + expires_in)
        by (nonlinear_arith);
    assert(-20_000_000_000_000 <= expires_in <= 20_000_000_000_000) by (nonlinear_arith)
        requires
            -8_334_601_315_200_000_000 <= now <= 8_210_266_876_799_999_999,
            now + expires_in * 1_000_000 <= 8_210_266_876_799_999_999,
            -8_334_601_315_200_000_000 <= now + expires_in * 1_000_000,
    ;
    issued + expires_in
}

/// The last whole second that a date-time can hold.
pub open spec fn max_expiry_second() -> int {
    seconds_of(MAX_TIMESTAMP_MICROS as int)
}

/// The first whole second that a date-time can hold.
pub open spec fn min_expiry_second() -> int {
    seconds_of(MIN_TIMESTAMP_MICROS as int)
}

/// Claims of an access token.
#[derive(Debug)]
pub struct AccessClaims {
    pub sub: u128,
    pub exp: i64,
    pub iat: i64,
    pub typ: String,
    pub email: String,
    pub role: String,
    pub jti: u128,
}

impl AccessClaims {
    /// Whether `self` is what [`AccessClaims::new_at`] issues for these arguments.
    pub open spec fn issued(
        self,
        user_id: u128,
        email: String,
        role: String,
        expires_in: int,
        jti: u128,
        now: int,
    ) -> bool {
        &&& self.sub == user_id
        &&& self.email == email
        &&& self.role == role
        &&& self.jti == jti
        &&& self.typ@ == access_token_type()
        &&& self.iat == seconds_of(now)
        &&& self.exp == seconds_of(after_seconds(now, expires_in))
        &&& self.exp == self.iat + expires_in
    }

    /// Whether `self` is what [`AccessClaims::new_at`] issues for these arguments at some
    /// instant that the clock can give.
    pub open spec fn issued_by_clock(
        self,
        user_id: u128,
        email: String,
        role: String,
        expires_in: int,
        jti: u128,
    ) -> bool {
        exists|now: int|
            issuable(now, expires_in) && #[trigger] self.issued(
                user_id,
                email,
                role,
                expires_in,
                jti,
                now,
            )
    }

    /// Claims for `user_id` issued at `now`, expiring `expires_in` seconds later.
    pub fn new_at(
        user_id: u128,
        email: String,
        role: String,
        expires_in: i64,
        jti: u128,
        now: i64,
    ) -> (c: AccessClaims)
        requires
            issuable(now as int, expires_in as int),
        ensures
            c.issued(user_id, email, role, expires_in as int, jti, now as int),
    {
        let exp = expiry_second(now, expires_in);
        AccessClaims {
            sub: user_id,
            exp,
            iat: seconds_of_instant(now),
            typ: text("access_token"),
            email,
            role,
            jti,
        }
    }

    /// Claims for `user_id` issued now (by the clock), expiring `expires_in` seconds
    /// later; `None` when that expiry lies beyond the last instant a date-time can hold.
    pub fn new(user_id: u128, email: String, role: String, expires_in: i64, jti: u128) -> (c:
        Option<AccessClaims>)
        ensures
            c matches Some(claims) ==> claims.issued_by_clock(
                user_id,
                email,
                role,
                expires_in as int,
                jti,
            ),
            c is None ==> exists|now: int| representable(now) && !issuable(now, expires_in as int),
    {
        let now = utc_now_micros();
        let wide: i128 = (now as i128) + (expires_in as i128) * 1_000_000i128;
        if wide > MAX_TIMESTAMP_MICROS as i128 || wide < crate::time::MIN_TIMESTAMP_MICROS as i128 {
            assert(!issuable(now as int, expires_in as int));
            return None;
        }
        assert(issuable(now as int, expires_in as int));
        let claims = AccessClaims::new_at(user_id, email, role, expires_in, jti, now);
        assert(claims.issued(user_id, email, role, expires_in as int, jti, now as int));
        assert(claims.issued_by_clock(user_id, email, role, expires_in as int, jti));
        Some(claims)
    }

    /// Whether the token has expired at instant `now`.
    pub fn is_expired_at(&self, now: i64) -> (expired: bool)
        requires
            representable(now as int),
        ensures
            expired == expired_at(self.exp, now as int),
    {
        seconds_of_instant(now) > self.exp
    }

    /// Whether the token has expired now (by the clock).
    pub fn is_expired(&self) -> (expired: bool)
        ensures
            expired ==> self.exp < max_expiry_second(),
            !expired ==> self.exp >= min_expiry_second(),
    {
        let now = utc_now_micros();
        self.is_expired_at(now)
    }
}

/// Claims of a refresh token; `family` groups the refresh tokens of one sign-in.
#[derive(Debug)]
pub struct RefreshClaims {
    pub sub: u128,
    pub exp: i64,
    pub iat: i64,
    pub typ: String,
    pub family: u128,
    pub jti: u128,
}

impl RefreshClaims {
    /// Whether `self` is what [`RefreshClaims::new_at`] issues for these arguments.
    pub open spec fn issued(
        self,
        user_id: u128,
        expires_in: int,
        jti: u128,
        now: int,
        family: u128,
    ) -> bool {
        &&& self.sub == user_id
        &&& self.jti == jti
        &&& self.family == family
        &&& self.typ@ == refresh_token_type()
        &&& self.iat == seconds_of(now)
        &&& self.exp == seconds_of(after_seconds(now, expires_in))
        &&& self.exp == self.iat + expires_in
    }

    /// Whether `self` is what [`RefreshClaims::new_at`] issues for these arguments at some
    /// instant that the clock can give, in a random token family.
    pub open spec fn issued_by_clock(self, user_id: u128, expires_in: int, jti: u128) -> bool {
        exists|now: int, family: u128|
            issuable(now, expires_in)
                && crate::ids::is_random_uuid(family) && #[trigger] self.issued(
                user_id,
                expires_in,
                jti,
                now,
                family,
            )
    }

    /// Claims for `user_id` issued at `now` in the token family `family`, expiring
    /// `expires_in` seconds later.
    pub fn new_at(user_id: u128, expires_in: i64, jti: u128, now: i64, family: u128) -> (c:
        RefreshClaims)
        requires
            issuable(now as int, expires_in as int),
        ensures
            c.issued(user_id, expires_in as int, jti, now as int, family),
    {
        let exp = expiry_second(now, expires_in);
        RefreshClaims {
            sub: user_id,
            exp,
            iat: seconds_of_instant(now),
            typ: text("refresh_token"),
            family,
            jti,
        }
    }

    /// Claims for `user_id` issued now (by the clock) in a new random token family,
    /// expiring `expires_in` seconds later; `None` when that expiry lies beyond the last
    /// instant a date-time can hold.
    pub fn new(user_id: u128, expires_in: i64, jti: u128) -> (c: Option<RefreshClaims>)
        ensures
            c matches Some(claims) ==> claims.issued_by_clock(user_id, expires_in as int, jti),
            c is None ==> exists|now: int| representable(now) && !issuable(now, expires_in as int),
    {
        let now = utc_now_micros();
        let wide: i128 = (now as i128) + (expires_in as i128) * 1_000_000i128;
        if wide > MAX_TIMESTAMP_MICROS as i128 || wide < crate::time::MIN_TIMESTAMP_MICROS as i128 {
            assert(!issuable(now as int, expires_in as int));
            return None;
        }
        assert(issuable(now as int, expires_in as int));
        let family = new_uuid_v4();
        let claims = RefreshClaims::new_at(user_id, expires_in, jti, now, family);
        assert(claims.issued(user_id, expires_in as int, jti, now as int, family));
        assert(claims.issued_by_clock(user_id, expires_in as int, jti));
        Some(claims)
    }

    /// Whether the token has expired at instant `now`.
    pub fn is_expired_at(&self, now: i64) -> (expired: bool)
        requires
            representable(now as int),
        ensures
            expired == expired_at(self.exp, now as int),
    {
        seconds_of_instant(now) > self.exp
    }

    /// Whether the token has expired now (by the clock).
    pub fn is_expired(&self) -> (expired: bool)
        ensures
            expired ==> self.exp < max_expiry_second(),
            !expired ==> self.exp >= min_expiry_second(),
    {
        let now = utc_now_micros();
        self.is_expired_at(now)
    }
}

/// Claims of a short-lived passkey sign-in token.
#[derive(Debug)]
pub struct PassKeyClaims {
    pub id: u128,
    pub exp: i64,
}

impl PassKeyClaims {
    /// Claims for `id` issued at `now`, expiring `expires_in` seconds later.
    pub fn new_at(id: u128, expires_in: i64, now: i64) -> (c: PassKeyClaims)
        requires
            issuable(now as int, expires_in as int),
        ensures
            c.id == id,
            c.exp == seconds_of(after_seconds(now as int, expires_in as int)),
            c.exp == seconds_of(now as int) + expires_in,
    {
        PassKeyClaims { id, exp: expiry_second(now, expires_in) }
    }

    /// Whether the token has expired at instant `now`.
    pub fn is_expired_at(&self, now: i64) -> (expired: bool)
        requires
            representable(now as int),
        ensures
            expired == expired_at(self.exp, now as int),
    {
        seconds_of_instant(now) > self.exp
    }

    /// Whether the token has expired now (by the clock).
    pub fn is_expired(&self) -> (expired: bool)
        ensures
            expired ==> self.exp < max_expiry_second(),
            !expired ==> self.exp >= min_expiry_second(),
    {
        let now = utc_now_micros();
        self.is_expired_at(now)
    }
}

} // verus!
