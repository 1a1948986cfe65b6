//! Request and reply bodies of the web service.

use vstd::prelude::*;
use crate::entities::User;
use crate::ids::uuid_to_string;

verus! {

/// Credentials of a password sign-in.
#[derive(Debug)]
pub struct SignInRequest {
    pub email: String,
    pub password: String,
}

/// A request for a passkey sign-in token.
#[derive(Debug)]
pub struct PassKeySignInRequest {
    pub id: u128,
}

/// A passkey sign-in token.
#[derive(Debug)]
pub struct PassKeySignInResponse {
    pub passkey_token: String,
}

/// A passkey sign-in token to check.
#[derive(Debug)]
pub struct PassKeyVerifyRequest {
    pub passkey_token: String,
}

/// A request for a WebAuthn sign-in token.
#[derive(Debug)]
pub struct WebAuthnSignInRequest {
    pub id: u128,
}

impl From<WebAuthnSignInRequest> for PassKeySignInRequest {
    fn from(value: WebAuthnSignInRequest) -> (r: Self) {
        PassKeySignInRequest { id: value.id }
    }
}

impl vstd::std_specs::convert::FromSpecImpl<WebAuthnSignInRequest> for PassKeySignInRequest {
    open spec fn obeys_from_spec() -> bool {
        true
    }

    open spec fn from_spec(value: WebAuthnSignInRequest) -> Self {
        PassKeySignInRequest { id: value.id }
    }
}

/// A WebAuthn sign-in token.
#[derive(Debug)]
pub struct WebAuthnSignInResponse {
    pub passkey_token: String,
}

impl From<PassKeySignInResponse> for WebAuthnSignInResponse {
    fn from(value: PassKeySignInResponse) -> (r: Self) {
        WebAuthnSignInResponse { passkey_token: value.passkey_token }
    }
}

impl vstd::std_specs::convert::FromSpecImpl<PassKeySignInResponse> for WebAuthnSignInResponse {
    open spec fn obeys_from_spec() -> bool {
        true
    }

    open spec fn from_spec(value: PassKeySignInResponse) -> Self {
        WebAuthnSignInResponse { passkey_token: value.passkey_token }
    }
}

/// A WebAuthn sign-in token to check.
#[derive(Debug)]
pub struct WebAuthnVerifyRequest {
    pub passkey_token: String,
}

impl From<WebAuthnVerifyRequest> for PassKeyVerifyRequest {
    fn from(value: WebAuthnVerifyRequest) -> (r: Self) {
        PassKeyVerifyRequest { passkey_token: value.passkey_token }
    }
}

impl vstd::std_specs::convert::FromSpecImpl<WebAuthnVerifyRequest> for PassKeyVerifyRequest {
    open spec fn obeys_from_spec() -> bool {
        true
    }

    open spec fn from_spec(value: WebAuthnVerifyRequest) -> Self {
        PassKeyVerifyRequest { passkey_token: value.passkey_token }
    }
}

/// A sign-in through an outside identity provider.
#[derive(Debug)]
pub struct SignInProviderRequest {
    pub email: String,
    pub name: String,
    pub account_id: String,
    pub image: String,
}

/// The tokens handed out at sign-in and refresh.
#[derive(Debug)]
pub struct AccessTokenResponse {
    pub access_token: String,
    pub refresh_token: String,
    pub token_type: String,
    pub expires_in: u64,
}

/// A change of the signed-in user's profile.
#[derive(Debug)]
pub struct UserUpdateRequest {
    pub name: String,
}

impl UserUpdateRequest {
    /// The change as an account: the default account with the requested name, which the
    /// service merges into the stored one.
    pub fn into_user(self) -> (u: User)
        ensures
            u.name == self.name,
            u.email@ == Seq::<char>::empty(),
            u.password is None,
            u.role@ == Seq::<char>::empty(),
            u.defaults_besides_profile(),
    {
        let mut u = User::default();
        u.name = self.name;
        u
    }
}

/// The public profile of an account.
#[derive(Debug)]
pub struct UserResponse {
    pub id: String,
    pub name: String,
    pub email: String,
    pub role: String,
    pub image: Option<String>,
    pub created_at: Option<i64>,
    pub updated_at: Option<i64>,
}

impl UserResponse {
    /// The public profile of `user`: its id in hyphenated form, and its name, e-mail,
    /// role, image and timestamps.
    pub fn from_user(user: User) -> (r: UserResponse)
        ensures
            r.id@ == crate::ids::uuid_text(user.id),
            r.name == user.name,
            r.email == user.email,
            r.role == user.role,
            r.image == user.image,
            r.created_at == user.created_at,
            r.updated_at == user.updated_at,
    {
        UserResponse {
            id: uuid_to_string(user.id),
            name: user.name,
            email: user.email,
            role: user.role,
            image: user.image,
            created_at: user.created_at,
            updated_at: user.updated_at,
        }
    }
}

/// Query of the passkey sign-in options.
#[derive(Debug)]
pub struct SignInQuery {
    pub email: String,
}

} // verus!
