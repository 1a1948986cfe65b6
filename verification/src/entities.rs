//! The stored entities: users, sessions, sign-in providers, passkeys and challenges.
//! Identifiers are UUIDs held as `u128`; instants are microseconds since the epoch.

use vstd::prelude::*;
use crate::ids::NIL_UUID;
use crate::time::{representable, utc_now_micros, MAX_TIMESTAMP_MICROS, MIN_TIMESTAMP_MICROS};

verus! {

/// `serde_json::Value`, carried through unread (the stored WebAuthn credential).
#[verifier::external_type_specification]
#[verifier::external_body]
pub struct ExJsonValue(serde_json::Value);

/// An account.
#[derive(Debug)]
pub struct User {
    pub id: u128,
    pub name: String,
    pub email: String,
    pub password: Option<String>,
    pub role: String,
    pub email_verified: bool,
    pub image: Option<String>,
    pub phone: Option<String>,
    pub phone_verified: bool,
    pub is_active: bool,
    pub two_factor: bool,
    pub lockout_end: Option<i64>,
    pub concurrency_stamp: Option<String>,
    pub failed_login_count: i32,
    pub last_failed_attempted: Option<i64>,
    pub created_at: Option<i64>,
    pub updated_at: Option<i64>,
}

impl User {
    /// Whether `self` is the default account: nil id, empty texts, nothing set.
    pub open spec fn is_default(self) -> bool {
        &&& self.name@ == Seq::<char>::empty()
        &&& self.email@ == Seq::<char>::empty()
        &&& self.password is None
        &&& self.role@ == Seq::<char>::empty()
        &&& self.defaults_besides_profile()
    }

    /// Whether every field but the name, e-mail, password and role has its default value.
    pub open spec fn defaults_besides_profile(self) -> bool {
        &&& self.id == NIL_UUID
        &&& !self.email_verified
        &&& self.image is None
        &&& self.phone is None
        &&& !self.phone_verified
        &&& !self.is_active
        &&& !self.two_factor
        &&& self.lockout_end is None
        &&& self.concurrency_stamp is None
        &&& self.failed_login_count == 0
        &&& self.last_failed_attempted is None
        &&& self.created_at is None
        &&& self.updated_at is None
    }

    /// A new active account with the given profile, not yet stored (nil id).
    pub fn new(
        name: String,
        email: String,
        password: Option<String>,
        image: Option<String>,
        role: String,
    ) -> (u: User)
        ensures
            u.id == NIL_UUID,
            u.name == name,
            u.email == email,
            u.password == password,
            u.role == role,
            !u.email_verified,
            u.image == image,
            u.phone is None,
            !u.phone_verified,
            u.is_active,
            !u.two_factor,
            u.lockout_end is None,
            u.concurrency_stamp is None,
            u.failed_login_count == 0,
            u.last_failed_attempted is None,
            u.created_at is None,
            u.updated_at is None,
    {
        User {
            id: NIL_UUID,
            name,
            email,
            password,
            role,
            email_verified: false,
            image,
            phone: None,
            phone_verified: false,
            is_active: true,
            two_factor: false,
            lockout_end: None,
            concurrency_stamp: None,
            failed_login_count: 0,
            last_failed_attempted: None,
            created_at: None,
            updated_at: None,
        }
    }
}

impl Default for User {
    fn default() -> (u: User)
        ensures
            u.is_default(),
    {
        User {
            id: NIL_UUID,
            name: String::new(),
            email: String::new(),
            password: None,
            role: String::new(),
            email_verified: false,
            image: None,
            phone: None,
            phone_verified: false,
            is_active: false,
            two_factor: false,
            lockout_end: None,
            concurrency_stamp: None,
            failed_login_count: 0,
            last_failed_attempted: None,
            created_at: None,
            updated_at: None,
        }
    }
}

/// A sign-in session, which a refresh token names by its id.
#[derive(Debug)]
pub struct Session {
    pub id: u128,
    pub ip: String,
    pub user_agent: String,
    pub user_id: u128,
    pub expires_at: i64,
}

impl Session {
    /// Whether the session has expired at instant `now`.
    pub open spec fn expired_at(self, now: int) -> bool {
        now > self.expires_at
    }

    /// A new session, not yet stored (nil id).
    pub fn new(ip: String, user_agent: String, user_id: u128, expires_at: i64) -> (s: Session)
        ensures
            s.id == NIL_UUID,
            s.ip == ip,
            s.user_agent == user_agent,
            s.user_id == user_id,
            s.expires_at == expires_at,
    {
        Session { id: NIL_UUID, ip, user_agent, user_id, expires_at }
    }

    /// Whether the session has expired at `now`. Only a stored session (non-nil id) is asked.
    pub fn is_expired_at(&self, now: i64) -> (expired: bool)
        requires
            self.id != NIL_UUID,
        ensures
            expired == self.expired_at(now as int),
    {
        now > self.expires_at
    }

    /// Whether the session has expired now (by the clock). Only a stored session
    /// (non-nil id) is asked.
    pub fn is_expired(&self) -> (expired: bool)
        requires
            self.id != NIL_UUID,
        ensures
            expired ==> self.expires_at < MAX_TIMESTAMP_MICROS,
            !expired ==> self.expires_at >= MIN_TIMESTAMP_MICROS,
    {
        let now = utc_now_micros();
        self.is_expired_at(now)
    }
}

/// A link between an account and an outside identity provider.
#[derive(Debug)]
pub struct Provider {
    pub id: u128,
    pub name: String,
    pub account_id: String,
    pub user_id: u128,
    pub created_at: i64,
}

impl Provider {
    /// A new link created at `now`, not yet stored (nil id).
    pub fn new_at(name: String, account_id: String, user_id: u128, now: i64) -> (p: Provider)
        ensures
            p.id == NIL_UUID,
            p.name == name,
            p.account_id == account_id,
            p.user_id == user_id,
            p.created_at == now,
    {
        Provider { id: NIL_UUID, name, account_id, user_id, created_at: now }
    }

    /// A new link created now (by the clock), not yet stored (nil id).
    pub fn new(name: String, account_id: String, user_id: u128) -> (p: Provider)
        ensures
            p.id == NIL_UUID,
            p.name == name,
            p.account_id == account_id,
            p.user_id == user_id,
            representable(p.created_at as int),
    {
        let now = utc_now_micros();
        Provider::new_at(name, account_id, user_id, now)
    }
}

/// A registered WebAuthn credential of an account.
#[derive(Debug)]
pub struct Passkey {
    pub id: u128,
    pub user_id: u128,
    pub cred_id: Vec<u8>,
    pub passkey: serde_json::Value,
    pub device_type: Option<String>,
    pub created_at: i64,
}

impl Passkey {
    /// A new credential, not yet stored (nil id, creation instant at the epoch).
    pub fn new(
        user_id: u128,
        cred_id: Vec<u8>,
        passkey: serde_json::Value,
        device_type: Option<String>,
    ) -> (k: Passkey)
        ensures
            k.id == NIL_UUID,
            k.user_id == user_id,
            k.cred_id == cred_id,
            k.passkey == passkey,
            k.device_type == device_type,
            k.created_at == 0,
    {
        Passkey { id: NIL_UUID, user_id, cred_id, passkey, device_type, created_at: 0 }
    }
}

/// A pending WebAuthn challenge.
#[derive(Debug)]
pub struct Challenge {
    pub user_id: u128,
    pub challenge: String,
    pub created_at: i64,
    pub expires_at: Option<i64>,
}

impl Challenge {
    /// A new challenge (creation instant at the epoch).
    pub fn new(user_id: u128, challenge: String, expires_at: Option<i64>) -> (c: Challenge)
        ensures
            c.user_id == user_id,
            c.challenge == challenge,
            c.created_at == 0,
            c.expires_at == expires_at,
    {
        Challenge { user_id, challenge, created_at: 0, expires_at }
    }
}

/// The envelope of a service reply.
pub struct Response<T> {
    pub status: String,
    pub message: String,
    pub data: Option<T>,
}

} // verus!
