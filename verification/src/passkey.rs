//! WebAuthn passkey ceremonies: registering a passkey for a signed-in user, and signing in
//! with one. The cryptographic checks are `webauthn-rs`'s (behind the wrappers below);
//! the ceremony state kept in the cache between the two halves of a ceremony, the keys and
//! tokens that name it, the refusals and the credential bookkeeping are decided here.

use vstd::prelude::*;
use crate::cookie::Cookie;
use crate::endpoints::{
    passkey_session_cookie, registration_state_id, registration_state_key,
    registration_state_text, require_passkeys, signin_state_key, state_token_owner,
    stored_ceremony_state, user_id_of_state_token, registration_owner_id, PASSKEY_COOKIE_MAX_AGE,
};
use crate::entities::{Passkey as StoredPasskey, User};
use crate::error::{app_error, fails_with, message_error, AppError, ErrorKind};
use crate::ids::{uuid_parse, uuid_text, uuid_to_string, NIL_UUID};
use crate::models::AccessTokenResponse;
use crate::token::TokenError;

verus! {

/// `webauthn_rs::Webauthn`, the relying party's WebAuthn configuration.
#[verifier::external_type_specification]
#[verifier::external_body]
pub struct ExWebauthn(webauthn_rs::Webauthn);

/// `webauthn_rs::prelude::PasskeyRegistration`, the server side of a registration.
#[verifier::external_type_specification]
#[verifier::external_body]
pub struct ExPasskeyRegistration(webauthn_rs::prelude::PasskeyRegistration);

/// `webauthn_rs::prelude::PasskeyAuthentication`, the server side of a sign-in.
#[verifier::external_type_specification]
#[verifier::external_body]
pub struct ExPasskeyAuthentication(webauthn_rs::prelude::PasskeyAuthentication);

/// `webauthn_rs::prelude::CreationChallengeResponse`, the options sent to the browser to
/// create a credential.
#[verifier::external_type_specification]
#[verifier::external_body]
pub struct ExCreationChallengeResponse(webauthn_rs::prelude::CreationChallengeResponse);

/// `webauthn_rs::prelude::RequestChallengeResponse`, the options sent to the browser to
/// sign in with a credential.
#[verifier::external_type_specification]
#[verifier::external_body]
pub struct ExRequestChallengeResponse(webauthn_rs::prelude::RequestChallengeResponse);

/// `webauthn_rs::prelude::RegisterPublicKeyCredential`, the browser's new credential.
#[verifier::external_type_specification]
#[verifier::external_body]
pub struct ExRegisterPublicKeyCredential(webauthn_rs::prelude::RegisterPublicKeyCredential);

/// `webauthn_rs::prelude::PublicKeyCredential`, the browser's signed assertion.
#[verifier::external_type_specification]
#[verifier::external_body]
pub struct ExPublicKeyCredential(webauthn_rs::prelude::PublicKeyCredential);

/// `webauthn_rs::prelude::AuthenticationResult`, what a successful assertion tells.
#[verifier::external_type_specification]
#[verifier::external_body]
pub struct ExAuthenticationResult(webauthn_rs::prelude::AuthenticationResult);

/// `Webauthn::start_passkey_registration` for the user `user_id` (as a UUID) with the
/// e-mail and name given, with the credentials of `saved` (each decoded from its JSON by
/// `serde_json::from_value`) excluded. `Err` where a saved credential does not decode or
/// `webauthn-rs` reports an error. Besides the options and the state it hands back what
/// it handed over: the user id, e-mail and name, and the excluded credential ids, one for
/// each saved credential in order. The challenge is random, so nothing is stated of the
/// options or the state, and the credential ids are read from JSON that is opaque here.
#[verifier::external_body]
fn begin_registration(
    webauthn: &webauthn_rs::Webauthn,
    user_id: u128,
    email: &str,
    name: &str,
    saved: &Vec<StoredPasskey>,
) -> (r: Result<RegistrationBegun, ()>)
    ensures
        r matches Ok(b) ==> b.user_id == user_id && b.email@ == email@ && b.name@ == name@
            && b.excluded@.len() == saved@.len(),
{
    let excluded = saved.iter().map(|p| {
        serde_json::from_value::<webauthn_rs::prelude::Passkey>(p.passkey.clone()).map(|k| k.cred_id().clone())
    }).collect::<Result<Vec<_>, _>>().map_err(|_| ())?;
    let ids = excluded.iter().map(|id| id.to_vec()).collect();
    let (options, state) = webauthn
        .start_passkey_registration(uuid::Uuid::from_u128(user_id), email, name, Some(excluded))
        .map_err(|_| ())?;
    Ok(RegistrationBegun { options, state, user_id, email: email.to_string(), name: name.to_string(), excluded: ids })
}

/// `Webauthn::finish_passkey_registration`: `Err` where the credential is refused;
/// otherwise the new credential's id and its JSON (`serde_json::to_value`, `None` where it
/// does not serialize). Nothing is stated of the outcome: it rests on the signature
/// checks of `webauthn-rs` over values that are opaque here.
#[verifier::external_body]
fn complete_registration(
    webauthn: &webauthn_rs::Webauthn,
    credential: &webauthn_rs::prelude::RegisterPublicKeyCredential,
    state: &webauthn_rs::prelude::PasskeyRegistration,
) -> (r: Result<(Vec<u8>, Option<serde_json::Value>), ()>) {
    let key = webauthn.finish_passkey_registration(credential, state).map_err(|_| ())?;
    Ok((key.cred_id().to_vec(), serde_json::to_value(&key).ok()))
}

/// `Webauthn::start_passkey_authentication` with the credentials of `saved` (each decoded
/// from its JSON by `serde_json::from_value`): the outer `Err` where one does not decode,
/// the inner one where `webauthn-rs` reports an error. Besides the options and the state
/// it hands back the ids of the credentials it allowed, one for each saved credential in
/// order. The challenge is random, so nothing is stated of the options or the state, and
/// the credential ids are read from JSON that is opaque here.
#[verifier::external_body]
fn begin_authentication(
    webauthn: &webauthn_rs::Webauthn,
    saved: &Vec<StoredPasskey>,
) -> (r: Result<Result<SigninBegun, ()>, ()>)
    ensures
        r matches Ok(Ok(b)) ==> b.allowed@.len() == saved@.len(),
{
    let keys = saved.iter().map(|p| serde_json::from_value::<webauthn_rs::prelude::Passkey>(p.passkey.clone()))
        .collect::<Result<Vec<_>, _>>().map_err(|_| ())?;
    let allowed = keys.iter().map(|k| k.cred_id().to_vec()).collect();
    Ok(webauthn.start_passkey_authentication(&keys).map(|(options, state)| SigninBegun { options, state, allowed })
        .map_err(|_| ()))
}

/// `Webauthn::finish_passkey_authentication`; `Err` where the assertion is refused.
/// Nothing is stated of the outcome: it rests on the signature checks of `webauthn-rs`
/// over values that are opaque here.
#[verifier::external_body]
fn complete_authentication(
    webauthn: &webauthn_rs::Webauthn,
    credential: &webauthn_rs::prelude::PublicKeyCredential,
    state: &webauthn_rs::prelude::PasskeyAuthentication,
) -> (r: Result<webauthn_rs::prelude::AuthenticationResult, ()>) {
    webauthn.finish_passkey_authentication(credential, state).map_err(|_| ())
}

/// `AuthenticationResult::cred_id`, as bytes: the credential that signed the assertion.
/// The result is opaque here, so the bytes are not stated.
#[verifier::external_body]
fn asserted_cred_id(result: &webauthn_rs::prelude::AuthenticationResult) -> (id: Vec<u8>) {
    result.cred_id().to_vec()
}

/// `Passkey::update_credential` on the stored credential `stored` (decoded from its JSON
/// by `serde_json::from_value`, `Err` where it does not decode), which takes the counter
/// and backup state of the assertion `result`; the updated credential's JSON
/// (`serde_json::to_value`, `None` where it does not serialize). Nothing is stated of
/// the outcome: the credential's JSON is not read here.
#[verifier::external_body]
fn updated_credential(
    stored: &StoredPasskey,
    result: &webauthn_rs::prelude::AuthenticationResult,
) -> (r: Result<Option<serde_json::Value>, ()>) {
    let mut key: webauthn_rs::prelude::Passkey = serde_json::from_value(stored.passkey.clone())
        .map_err(|_| ())?;
    key.update_credential(result);
    Ok(serde_json::to_value(&key).ok())
}

/// `serde_json::to_string` of a registration state; `None` where it does not serialize.
/// The state is opaque here, so its text is not stated; what is stated is that the text
/// parses back as a registration state (both directions are `serde`'s derived impls, which
/// `webauthn-rs` provides so that the state can be kept between the two halves of a
/// ceremony).
#[verifier::external_body]
fn registration_state_json(state: &webauthn_rs::prelude::PasskeyRegistration) -> (r: Option<String>)
    ensures
        r matches Some(json) ==> registration_state_parses(json@),
{
    serde_json::to_string(state).ok()
}

/// Whether `serde_json::from_str::<PasskeyRegistration>` parses the text.
pub uninterp spec fn registration_state_parses(json: Seq<char>) -> bool;

/// Whether `serde_json::from_str::<PasskeyAuthentication>` parses the text.
pub uninterp spec fn authentication_state_parses(json: Seq<char>) -> bool;

/// `serde_json::from_str::<PasskeyRegistration>`; `None` where it does not parse.
#[verifier::external_body]
fn parse_registration_state(json: &str) -> (r: Option<webauthn_rs::prelude::PasskeyRegistration>)
    ensures
        r is Some <==> registration_state_parses(json@),
{
    serde_json::from_str(json).ok()
}

/// `serde_json::to_string` of a sign-in state; `None` where it does not serialize.
/// The state is opaque here, so its text is not stated; what is stated is that the text
/// parses back as a sign-in state (both directions are `serde`'s derived impls, which
/// `webauthn-rs` provides so that the state can be kept between the two halves of a
/// ceremony).
#[verifier::external_body]
fn authentication_state_json(state: &webauthn_rs::prelude::PasskeyAuthentication) -> (r: Option<String>)
    ensures
        r matches Some(json) ==> authentication_state_parses(json@),
{
    serde_json::to_string(state).ok()
}

/// `serde_json::from_str::<PasskeyAuthentication>`; `None` where it does not parse.
#[verifier::external_body]
fn parse_authentication_state(json: &str) -> (r: Option<webauthn_rs::prelude::PasskeyAuthentication>)
    ensures
        r is Some <==> authentication_state_parses(json@),
{
    serde_json::from_str(json).ok()
}

/// How a ceremony step ends when it does not succeed.
pub enum CeremonyFailure {
    /// The request is answered with this error.
    Refused(AppError),
    /// The request is not answered at all: a stored credential or a new one could not be
    /// read or written, or `webauthn-rs` could not begin a registration.
    Aborted,
}

/// Whether `r` is the refusal with the error `kind`/`message`.
pub open spec fn refused_with<T>(r: Result<T, CeremonyFailure>, kind: ErrorKind, message: Seq<char>) -> bool {
    r matches Err(CeremonyFailure::Refused(e)) && e@ == message_error(kind, message)
}

/// What `webauthn-rs` handed back on beginning a registration, with what it was handed.
pub struct RegistrationBegun {
    pub options: webauthn_rs::prelude::CreationChallengeResponse,
    pub state: webauthn_rs::prelude::PasskeyRegistration,
    pub user_id: u128,
    pub email: String,
    pub name: String,
    pub excluded: Vec<Vec<u8>>,
}

/// What `webauthn-rs` handed back on beginning a sign-in, with the credentials it allowed.
pub struct SigninBegun {
    pub options: webauthn_rs::prelude::RequestChallengeResponse,
    pub state: webauthn_rs::prelude::PasskeyAuthentication,
    pub allowed: Vec<Vec<u8>>,
}

/// What starting a registration hands back: the options for the browser, the state token
/// the browser sends back with its answer, the ceremony state to keep under `state_key`,
/// and what the options were made for: the account and the credential ids excluded.
pub struct RegistrationStart {
    pub options: webauthn_rs::prelude::CreationChallengeResponse,
    pub state_token: String,
    pub state_key: String,
    pub state: String,
    pub user_id: u128,
    pub email: String,
    pub name: String,
    pub excluded: Vec<Vec<u8>>,
}

/// What starting a passkey sign-in hands back: the options for the browser, the state
/// token, the ceremony state to keep under `state_key`, and the credential ids allowed.
pub struct SigninStart {
    pub options: webauthn_rs::prelude::RequestChallengeResponse,
    pub state_token: String,
    pub state_key: String,
    pub state: String,
    pub allowed: Vec<Vec<u8>>,
}

/// Starts registering a passkey for `user`, whose saved credentials `saved` are excluded
/// from the new one: the options are made for the user's id, e-mail and name, excluding
/// one credential id for each saved credential. The state token is `nonce:user-id` (both
/// as UUIDs), and the state is kept under `webauthn:reg:` and that token. A state that
/// does not serialize is `500 failed to serialize`.
pub fn start_registration(
    webauthn: &webauthn_rs::Webauthn,
    user: &User,
    saved: &Vec<StoredPasskey>,
    nonce: u128,
) -> (r: Result<RegistrationStart, CeremonyFailure>)
    ensures
        r matches Ok(s) ==> s.state_token@ == registration_state_text(nonce, user.id)
            && s.state_key@ == "webauthn:reg:"@ + registration_state_text(nonce, user.id),
        r matches Ok(s) ==> s.user_id == user.id && s.email@ == user.email@ && s.name@
            == user.name@ && s.excluded@.len() == saved@.len(),
        r matches Ok(s) ==> registration_state_parses(s.state@),
        r matches Err(CeremonyFailure::Refused(e)) ==> e@ == message_error(
            ErrorKind::Internal,
            "failed to serialize"@,
        ),
{
    let begun = match begin_registration(
        webauthn,
        user.id,
        user.email.as_str(),
        user.name.as_str(),
        saved,
    ) {
        Ok(started) => started,
        Err(()) => return Err(CeremonyFailure::Aborted),
    };
    let RegistrationBegun { options, state, user_id, email, name, excluded } = begun;
    let state = match registration_state_json(&state) {
        Some(json) => json,
        None => return Err(
            CeremonyFailure::Refused(app_error(ErrorKind::Internal, "failed to serialize")),
        ),
    };
    let state_token = registration_state_id(nonce, user.id);
    let state_key = registration_state_key(state_token.as_str());
    Ok(RegistrationStart { options, state_token, state_key, state, user_id, email, name, excluded })
}

/// What finishing a registration gives once `webauthn-rs` has judged the credential
/// (`made`: its id and JSON, or `Err` where it was refused), for the user id text `owner`
/// of the state token.
pub open spec fn registration_outcome(
    owner: Seq<char>,
    made: Result<(Vec<u8>, Option<serde_json::Value>), ()>,
    r: Result<StoredPasskey, CeremonyFailure>,
) -> bool {
    match made {
        Err(()) => refused_with(r, ErrorKind::Internal, "failed to finish registration"@),
        Ok((cred_id, value)) => match (uuid_parse(owner), value) {
            (Some(user_id), Some(v)) => r == Ok::<StoredPasskey, CeremonyFailure>(
                StoredPasskey {
                    id: NIL_UUID,
                    user_id,
                    cred_id,
                    passkey: v,
                    device_type: None,
                    created_at: 0,
                },
            ),
            _ => r matches Err(CeremonyFailure::Aborted),
        },
    }
}

/// Finishes a registration once `webauthn-rs` has judged the credential: a refused one is
/// `500 failed to finish registration`; an accepted one becomes the user's new passkey.
/// A user id that is not a UUID, or a credential that does not serialize, aborts.
pub fn registration_finished(
    owner: &str,
    made: Result<(Vec<u8>, Option<serde_json::Value>), ()>,
) -> (r: Result<StoredPasskey, CeremonyFailure>)
    ensures
        registration_outcome(owner@, made, r),
{
    let (cred_id, value) = match made {
        Ok(m) => m,
        Err(()) => return Err(
            CeremonyFailure::Refused(
                app_error(ErrorKind::Internal, "failed to finish registration"),
            ),
        ),
    };
    let user_id = match registration_owner_id(owner) {
        Some(id) => id,
        None => return Err(CeremonyFailure::Aborted),
    };
    match value {
        Some(v) => Ok(StoredPasskey::new(user_id, cred_id, v, None)),
        None => Err(CeremonyFailure::Aborted),
    }
}

/// What finishing a registration gives for what the cache held (`stored`) and the state
/// token: the refusals of a missing or unreadable state and of a token that names no user,
/// and otherwise the outcome for `webauthn-rs`'s verdict on the credential.
pub open spec fn registration_finish_spec(
    stored: Result<Option<String>, ()>,
    state_token: Seq<char>,
    r: Result<StoredPasskey, CeremonyFailure>,
) -> bool {
    match stored {
        Err(()) => refused_with(r, ErrorKind::Internal, "redis error"@),
        Ok(None) => refused_with(r, ErrorKind::Unauthorized, "registration state not found"@),
        Ok(Some(s)) => if !registration_state_parses(s@) {
            refused_with(r, ErrorKind::Internal, "invalid registration state"@)
        } else {
            match state_token_owner(state_token) {
                None => refused_with(r, ErrorKind::Internal, "invalid state token"@),
                Some(owner) => exists|made| #[trigger] registration_outcome(owner, made, r),
            }
        },
    }
}

/// A registration that was started can be finished: the state it keeps, read back with
/// its state token, is taken up, so finishing is refused neither for the state nor for
/// the token, and its outcome is `webauthn-rs`'s verdict on the credential for the user
/// the registration was started for: a passkey of that user, `failed to finish
/// registration`, or an abort.
pub proof fn lemma_started_registration_finishes(
    nonce: u128,
    user_id: u128,
    state: String,
    r: Result<StoredPasskey, CeremonyFailure>,
)
    requires
        registration_state_parses(state@),
        registration_finish_spec(Ok(Some(state)), registration_state_text(nonce, user_id), r),
    ensures
        !refused_with(r, ErrorKind::Internal, "invalid registration state"@),
        !refused_with(r, ErrorKind::Internal, "invalid state token"@),
        !refused_with(r, ErrorKind::Internal, "redis error"@),
        !refused_with(r, ErrorKind::Unauthorized, "registration state not found"@),
        exists|made| #[trigger] registration_outcome(uuid_text(user_id), made, r),
        r matches Ok(k) ==> uuid_parse(uuid_text(user_id)) == Some(k.user_id) && k.id == NIL_UUID,
        r matches Err(CeremonyFailure::Refused(e)) ==> e@ == message_error(
            ErrorKind::Internal,
            "failed to finish registration"@,
        ),
{
    crate::endpoints::lemma_registration_token_names_its_user(nonce, user_id);
    reveal_strlit("failed to finish registration");
    reveal_strlit("invalid registration state");
    reveal_strlit("invalid state token");
    reveal_strlit("redis error");
    assert("failed to finish registration"@[0] != "invalid registration state"@[0]);
    assert("failed to finish registration"@[0] != "invalid state token"@[0]);
    assert("failed to finish registration"@[0] != "redis error"@[0]);
    let made = choose|made| #[trigger] registration_outcome(uuid_text(user_id), made, r);
    assert(registration_outcome(uuid_text(user_id), made, r));
}

/// Finishes registering a passkey: `stored` is what the cache held under the state key
/// of `state_token`. The new credential belongs to the user the state token names.
pub fn finish_registration(
    webauthn: &webauthn_rs::Webauthn,
    credential: &webauthn_rs::prelude::RegisterPublicKeyCredential,
    state_token: &str,
    stored: Result<Option<String>, ()>,
) -> (r: Result<StoredPasskey, CeremonyFailure>)
    ensures
        registration_finish_spec(stored, state_token@, r),
        stored is Err ==> refused_with(r, ErrorKind::Internal, "redis error"@),
        stored matches Ok(None) ==> refused_with(
            r,
            ErrorKind::Unauthorized,
            "registration state not found"@,
        ),
        stored matches Ok(Some(s)) ==> (!registration_state_parses(s@) ==> refused_with(
            r,
            ErrorKind::Internal,
            "invalid registration state"@,
        )),
        stored matches Ok(Some(s)) ==> (registration_state_parses(s@) && state_token_owner(
            state_token@,
        ) is None ==> refused_with(r, ErrorKind::Internal, "invalid state token"@)),
        stored matches Ok(Some(s)) ==> (registration_state_parses(s@) ==> (state_token_owner(
            state_token@,
        ) matches Some(owner) ==> exists|made| #[trigger] registration_outcome(owner, made, r))),
        r matches Err(CeremonyFailure::Refused(e)) ==> {
            ||| e@ == message_error(ErrorKind::Internal, "redis error"@)
            ||| e@ == message_error(ErrorKind::Unauthorized, "registration state not found"@)
            ||| e@ == message_error(ErrorKind::Internal, "invalid registration state"@)
            ||| e@ == message_error(ErrorKind::Internal, "invalid state token"@)
            ||| e@ == message_error(ErrorKind::Internal, "failed to finish registration"@)
        },
        r matches Ok(k) ==> {
            &&& stored matches Ok(Some(s)) && registration_state_parses(s@)
            &&& state_token_owner(state_token@) matches Some(owner) && uuid_parse(owner) == Some(
                k.user_id,
            )
            &&& k.id == NIL_UUID
            &&& k.device_type is None
            &&& k.created_at == 0
        },
{
    let stored = match stored_ceremony_state(stored) {
        Ok(s) => s,
        Err(e) => return Err(CeremonyFailure::Refused(e)),
    };
    let state = match parse_registration_state(stored.as_str()) {
        Some(s) => s,
        None => return Err(
            CeremonyFailure::Refused(app_error(ErrorKind::Internal, "invalid registration state")),
        ),
    };
    let owner = match user_id_of_state_token(state_token) {
        Ok(o) => o,
        Err(e) => return Err(CeremonyFailure::Refused(e)),
    };
    let made = complete_registration(webauthn, credential, &state);
    let r = registration_finished(owner.as_str(), made);
    assert(registration_outcome(owner@, made, r));
    r
}

/// Starts a passkey sign-in with the saved credentials of the account, allowing one
/// credential id for each of them: none is `500 passkeys not found`. The state token is the UUID `nonce`, and the state is kept
/// under `webauthn:signin:` and that token.
pub fn start_signin(
    webauthn: &webauthn_rs::Webauthn,
    saved: &Vec<StoredPasskey>,
    nonce: u128,
) -> (r: Result<SigninStart, CeremonyFailure>)
    ensures
        saved@.len() == 0 ==> refused_with(r, ErrorKind::Internal, "passkeys not found"@),
        r matches Ok(s) ==> s.allowed@.len() == saved@.len(),
        r matches Ok(s) ==> authentication_state_parses(s.state@),
        r matches Ok(s) ==> saved@.len() > 0 && s.state_token@ == uuid_text(nonce) && s.state_key@
            == "webauthn:signin:"@ + uuid_text(nonce),
        r matches Err(CeremonyFailure::Refused(e)) ==> {
            ||| e@ == message_error(ErrorKind::Internal, "passkeys not found"@) && saved@.len() == 0
            ||| e@ == message_error(ErrorKind::Internal, "failed to start passkey authentication"@)
            ||| e@ == message_error(ErrorKind::Internal, "failed to serialize"@)
        },
{
    match require_passkeys(saved.len()) {
        Ok(()) => {},
        Err(e) => return Err(CeremonyFailure::Refused(e)),
    }
    let SigninBegun { options, state, allowed } = match begin_authentication(webauthn, saved) {
        Ok(Ok(started)) => started,
        Ok(Err(())) => return Err(
            CeremonyFailure::Refused(
                app_error(ErrorKind::Internal, "failed to start passkey authentication"),
            ),
        ),
        Err(()) => return Err(CeremonyFailure::Aborted),
    };
    let state_token = uuid_to_string(nonce);
    let state_key = signin_state_key(state_token.as_str());
    let state = match authentication_state_json(&state) {
        Some(json) => json,
        None => return Err(
            CeremonyFailure::Refused(app_error(ErrorKind::Internal, "failed to serialize")),
        ),
    };
    Ok(SigninStart { options, state_token, state_key, state, allowed })
}

/// Keeping a ceremony's state in the cache: a failure is
/// `500 failed to set registration state`.
pub fn ceremony_state_saved(saved: Result<(), ()>) -> (r: Result<(), AppError>)
    ensures
        saved is Ok ==> r is Ok,
        saved is Err ==> fails_with(r, ErrorKind::Internal, "failed to set registration state"@),
{
    match saved {
        Ok(()) => Ok(()),
        Err(()) => Err(app_error(ErrorKind::Internal, "failed to set registration state")),
    }
}


/// What a passkey sign-in replies: the token pair, and the `g_id` cookie that carries it.
pub struct PasskeySignin {
    pub tokens: AccessTokenResponse,
    pub cookie: Cookie,
}

/// Where the second half of a passkey sign-in stands.
pub enum FinishAuthState {
    /// The ceremony state is being read from the cache, under `state_key`.
    ReadingState { state_key: String, credential: webauthn_rs::prelude::PublicKeyCredential },
    /// The stored credential that signed the assertion is being looked up.
    FindingPasskey { state_key: String, result: webauthn_rs::prelude::AuthenticationResult },
    /// The credential's account is being looked up.
    FindingUser {
        state_key: String,
        result: webauthn_rs::prelude::AuthenticationResult,
        passkey: StoredPasskey,
    },
    /// The updated credential is being written back.
    SavingPasskey { state_key: String, user: User },
    /// The ceremony state is being removed from the cache.
    DeletingState { user: User },
    /// A session is being opened for the account.
    CreatingSession { user: User },
    /// The token pair of the session is being issued (and serialized).
    Issuing,
    Finished,
}

/// The outcome of the last action of a passkey sign-in.
pub enum FinishAuthEvent {
    /// What the cache held (`Err` where it could not be read).
    StateRead(Result<Option<String>, ()>),
    PasskeyFound(Result<StoredPasskey, AppError>),
    UserFound(Result<User, AppError>),
    PasskeySaved(Result<(), AppError>),
    StateDeleted(Result<(), ()>),
    /// The id of the new session.
    SessionCreated(Result<u128, AppError>),
    /// The token pair and its JSON text.
    TokensIssued(Result<(AccessTokenResponse, String), TokenError>),
}

/// What the application does next in a passkey sign-in.
pub enum FinishAuthAction {
    ReadState(String),
    FindPasskey(Vec<u8>),
    FindUser(u128),
    SavePasskey(StoredPasskey),
    DeleteState(String),
    /// Opens a session for the user.
    CreateSession(u128),
    /// Issues the token pair of the session `jti` for the user.
    IssueTokens { user_id: u128, email: String, role: String, jti: u128 },
    Reply(Result<PasskeySignin, AppError>),
}

/// Whether `action` replies with the error `kind`/`message`.
pub open spec fn auth_rejects(action: FinishAuthAction, kind: ErrorKind, message: Seq<char>) -> bool {
    action matches FinishAuthAction::Reply(Err(e)) && e@ == message_error(kind, message)
}

/// Where a passkey sign-in goes once `webauthn-rs` has judged the assertion (`checked`:
/// what it tells of an accepted one, or `Err` where it refused it): a refused assertion
/// is `500 failed to finish authentication`; an accepted one leads to looking up the
/// credential that signed it.
pub open spec fn after_assertion_spec(
    state_key: String,
    checked: Result<webauthn_rs::prelude::AuthenticationResult, ()>,
    next: FinishAuthState,
    action: FinishAuthAction,
) -> bool {
    match checked {
        Err(()) => next is Finished && auth_rejects(
            action,
            ErrorKind::Internal,
            "failed to finish authentication"@,
        ),
        Ok(result) => next == (FinishAuthState::FindingPasskey { state_key, result })
            && action is FindPasskey,
    }
}

/// The step that follows `webauthn-rs`'s judgement of the assertion; see
/// [`after_assertion_spec`].
pub fn after_assertion(
    state_key: String,
    checked: Result<webauthn_rs::prelude::AuthenticationResult, ()>,
) -> (r: (FinishAuthState, FinishAuthAction))
    ensures
        after_assertion_spec(state_key, checked, r.0, r.1),
{
    match checked {
        Ok(result) => {
            let cred_id = asserted_cred_id(&result);
            (FinishAuthState::FindingPasskey { state_key, result }, FinishAuthAction::FindPasskey(cred_id))
        },
        Err(()) => (
            FinishAuthState::Finished,
            FinishAuthAction::Reply(
                Err(app_error(ErrorKind::Internal, "failed to finish authentication")),
            ),
        ),
    }
}

/// Where a passkey sign-in goes once the account is found and `webauthn-rs` has taken the
/// assertion into the stored credential (`updated`: the updated credential's JSON, `None`
/// where it did not serialize, `Err` where the stored JSON did not decode): the stored
/// passkey with the updated JSON is written back, and the account is kept for the rest of
/// the sign-in.
pub open spec fn credential_update_spec(
    state_key: String,
    user: User,
    passkey: StoredPasskey,
    updated: Result<Option<serde_json::Value>, ()>,
    next: FinishAuthState,
    action: FinishAuthAction,
) -> bool {
    match updated {
        Err(()) => next is Finished && auth_rejects(
            action,
            ErrorKind::Internal,
            "failed to deserialize passkey"@,
        ),
        Ok(None) => next is Finished && auth_rejects(
            action,
            ErrorKind::Internal,
            "failed to serialize passkey"@,
        ),
        Ok(Some(v)) => next == (FinishAuthState::SavingPasskey { state_key, user }) && action
            == FinishAuthAction::SavePasskey(StoredPasskey { passkey: v, ..passkey }),
    }
}

/// The step that follows the update of the stored credential; see
/// [`credential_update_spec`].
pub fn after_credential_update(
    state_key: String,
    user: User,
    passkey: StoredPasskey,
    updated: Result<Option<serde_json::Value>, ()>,
) -> (r: (FinishAuthState, FinishAuthAction))
    ensures
        credential_update_spec(state_key, user, passkey, updated, r.0, r.1),
        updated matches Ok(Some(v)) ==> r.0 == (FinishAuthState::SavingPasskey { state_key, user })
            && r.1 == FinishAuthAction::SavePasskey(StoredPasskey { passkey: v, ..passkey }),
{
    match updated {
        Err(()) => (
            FinishAuthState::Finished,
            FinishAuthAction::Reply(
                Err(app_error(ErrorKind::Internal, "failed to deserialize passkey")),
            ),
        ),
        Ok(None) => (
            FinishAuthState::Finished,
            FinishAuthAction::Reply(Err(app_error(ErrorKind::Internal, "failed to serialize passkey"))),
        ),
        Ok(Some(value)) => {
            let mut saved = passkey;
            saved.passkey = value;
            (FinishAuthState::SavingPasskey { state_key, user }, FinishAuthAction::SavePasskey(saved))
        },
    }
}

/// Once the stored credential has been updated, the sign-in goes on with the account
/// found: the stored passkey, with only its JSON replaced by the updated one, is written
/// back. A sign-in is refused as `failed to serialize passkey` exactly when the updated
/// credential did not serialize, and as `failed to deserialize passkey` exactly when the
/// stored one did not decode; it never stops otherwise.
pub proof fn lemma_updated_credential_is_written_back(
    state_key: String,
    user: User,
    passkey: StoredPasskey,
    updated: Result<Option<serde_json::Value>, ()>,
    next: FinishAuthState,
    action: FinishAuthAction,
)
    requires
        credential_update_spec(state_key, user, passkey, updated, next, action),
    ensures
        updated matches Ok(Some(v)) ==> {
            &&& next matches FinishAuthState::SavingPasskey { state_key: k, user: u } && k
                == state_key && u == user
            &&& action matches FinishAuthAction::SavePasskey(q) && q.passkey == v && q.id
                == passkey.id && q.user_id == passkey.user_id && q.cred_id == passkey.cred_id
                && q.device_type == passkey.device_type && q.created_at == passkey.created_at
        },
        auth_rejects(action, ErrorKind::Internal, "failed to serialize passkey"@) <==> updated
            == Ok::<Option<serde_json::Value>, ()>(None),
        auth_rejects(action, ErrorKind::Internal, "failed to deserialize passkey"@) <==> updated
            is Err,
        next is Finished <==> !(updated matches Ok(Some(_))),
{
    reveal_strlit("failed to serialize passkey");
    reveal_strlit("failed to deserialize passkey");
    assert("failed to serialize passkey"@ != "failed to deserialize passkey"@) by {
        assert("failed to serialize passkey"@[10] != "failed to deserialize passkey"@[10]);
    }
}

/// One step of the second half of a passkey sign-in.
pub open spec fn finish_auth_step_spec(
    state: FinishAuthState,
    event: FinishAuthEvent,
    next: FinishAuthState,
    action: FinishAuthAction,
) -> bool {
    match state {
        FinishAuthState::ReadingState { state_key, .. } => match event {
            FinishAuthEvent::StateRead(Err(())) => next is Finished && auth_rejects(
                action,
                ErrorKind::Internal,
                "redis error"@,
            ),
            FinishAuthEvent::StateRead(Ok(None)) => next is Finished && auth_rejects(
                action,
                ErrorKind::Unauthorized,
                "registration state not found"@,
            ),
            FinishAuthEvent::StateRead(Ok(Some(s))) => if !authentication_state_parses(s@) {
                next is Finished && auth_rejects(
                    action,
                    ErrorKind::Internal,
                    "invalid registration state"@,
                )
            } else {
                exists|checked| #[trigger] after_assertion_spec(state_key, checked, next, action)
            },
            _ => false,
        },
        FinishAuthState::FindingPasskey { state_key, result } => match event {
            FinishAuthEvent::PasskeyFound(Ok(p)) => next == (FinishAuthState::FindingUser {
                state_key,
                result,
                passkey: p,
            }) && action == FinishAuthAction::FindUser(p.user_id),
            FinishAuthEvent::PasskeyFound(Err(e)) => next is Finished && action
                == FinishAuthAction::Reply(Err(e)),
            _ => false,
        },
        FinishAuthState::FindingUser { state_key, passkey, .. } => match event {
            FinishAuthEvent::UserFound(Ok(user)) => exists|updated| #[trigger] credential_update_spec(
                state_key,
                user,
                passkey,
                updated,
                next,
                action,
            ),
            FinishAuthEvent::UserFound(Err(e)) => next is Finished && action
                == FinishAuthAction::Reply(Err(e)),
            _ => false,
        },
        FinishAuthState::SavingPasskey { state_key, user } => match event {
            FinishAuthEvent::PasskeySaved(Ok(())) => next == (FinishAuthState::DeletingState {
                user,
            }) && action == FinishAuthAction::DeleteState(state_key),
            FinishAuthEvent::PasskeySaved(Err(e)) => next is Finished && action
                == FinishAuthAction::Reply(Err(e)),
            _ => false,
        },
        FinishAuthState::DeletingState { user } => match event {
            FinishAuthEvent::StateDeleted(Ok(())) => next == (FinishAuthState::CreatingSession {
                user,
            }) && action == FinishAuthAction::CreateSession(user.id),
            FinishAuthEvent::StateDeleted(Err(())) => next is Finished && auth_rejects(
                action,
                ErrorKind::Internal,
                "failed to delete auth state"@,
            ),
            _ => false,
        },
        FinishAuthState::CreatingSession { user } => match event {
            FinishAuthEvent::SessionCreated(Ok(jti)) => next is Issuing && action
                == (FinishAuthAction::IssueTokens {
                user_id: user.id,
                email: user.email,
                role: user.role,
                jti,
            }),
            FinishAuthEvent::SessionCreated(Err(e)) => next is Finished && action
                == FinishAuthAction::Reply(Err(e)),
            _ => false,
        },
        FinishAuthState::Issuing => match event {
            FinishAuthEvent::TokensIssued(Ok((tokens, json))) => {
                &&& next is Finished
                &&& action matches FinishAuthAction::Reply(Ok(reply))
                &&& reply.tokens == tokens
                &&& reply.cookie.name@ == "g_id"@
                &&& reply.cookie.value == json
                &&& reply.cookie.max_age == PASSKEY_COOKIE_MAX_AGE
                &&& reply.cookie.path@ == "/"@ && reply.cookie.http_only && reply.cookie.secure
            },
            FinishAuthEvent::TokensIssued(Err(_)) => next is Finished && auth_rejects(
                action,
                ErrorKind::Unauthorized,
                "failed to generate token"@,
            ),
            _ => false,
        },
        FinishAuthState::Finished => false,
    }
}

/// A passkey sign-in signs in the account of the credential that signed the assertion,
/// and only after that credential has been written back and the ceremony state removed:
/// the session is opened for the account the stored credential names, and the tokens are
/// issued for that session.
pub proof fn lemma_passkey_signin_order(
    state_key: String,
    result: webauthn_rs::prelude::AuthenticationResult,
    passkey: StoredPasskey,
    user: User,
    jti: u128,
    s1: FinishAuthState,
    a1: FinishAuthAction,
    s2: FinishAuthState,
    a2: FinishAuthAction,
    s3: FinishAuthState,
    a3: FinishAuthAction,
    s4: FinishAuthState,
    a4: FinishAuthAction,
    s5: FinishAuthState,
    a5: FinishAuthAction,
)
    requires
        finish_auth_step_spec(
            FinishAuthState::FindingPasskey { state_key, result },
            FinishAuthEvent::PasskeyFound(Ok(passkey)),
            s1,
            a1,
        ),
        finish_auth_step_spec(s1, FinishAuthEvent::UserFound(Ok(user)), s2, a2),
        s2 is SavingPasskey,
        finish_auth_step_spec(s2, FinishAuthEvent::PasskeySaved(Ok(())), s3, a3),
        finish_auth_step_spec(s3, FinishAuthEvent::StateDeleted(Ok(())), s4, a4),
        finish_auth_step_spec(s4, FinishAuthEvent::SessionCreated(Ok(jti)), s5, a5),
    ensures
        a1 == FinishAuthAction::FindUser(passkey.user_id),
        a2 matches FinishAuthAction::SavePasskey(q) && q.id == passkey.id && q.cred_id
            == passkey.cred_id && q.user_id == passkey.user_id,
        a3 == FinishAuthAction::DeleteState(state_key),
        a4 == FinishAuthAction::CreateSession(user.id),
        a5 == (FinishAuthAction::IssueTokens {
            user_id: user.id,
            email: user.email,
            role: user.role,
            jti,
        }),
{
}

/// The state a passkey sign-in keeps when it starts (one that parses back) is taken up
/// when the sign-in is finished: it is never refused as unreadable, and what follows is
/// `webauthn-rs`'s verdict on the assertion, a refusal as `failed to finish
/// authentication` or the lookup of the credential that signed it, under the same state
/// key.
pub proof fn lemma_started_signin_state_is_taken_up(
    state_key: String,
    credential: webauthn_rs::prelude::PublicKeyCredential,
    state: String,
    next: FinishAuthState,
    action: FinishAuthAction,
)
    requires
        authentication_state_parses(state@),
        finish_auth_step_spec(
            FinishAuthState::ReadingState { state_key, credential },
            FinishAuthEvent::StateRead(Ok(Some(state))),
            next,
            action,
        ),
    ensures
        !auth_rejects(action, ErrorKind::Internal, "invalid registration state"@),
        auth_rejects(action, ErrorKind::Internal, "failed to finish authentication"@) || (
        next matches FinishAuthState::FindingPasskey { state_key: k, .. } && k == state_key
            && action is FindPasskey),
{
    reveal_strlit("invalid registration state");
    reveal_strlit("failed to finish authentication");
    assert("invalid registration state"@[0] != "failed to finish authentication"@[0]);
    let checked = choose|checked| #[trigger] after_assertion_spec(state_key, checked, next, action);
    assert(after_assertion_spec(state_key, checked, next, action));
}

impl FinishAuthState {
    /// Whether the state waits for this kind of event.
    pub open spec fn accepts(self, event: FinishAuthEvent) -> bool {
        match self {
            FinishAuthState::ReadingState { .. } => event is StateRead,
            FinishAuthState::FindingPasskey { .. } => event is PasskeyFound,
            FinishAuthState::FindingUser { .. } => event is UserFound,
            FinishAuthState::SavingPasskey { .. } => event is PasskeySaved,
            FinishAuthState::DeletingState { .. } => event is StateDeleted,
            FinishAuthState::CreatingSession { .. } => event is SessionCreated,
            FinishAuthState::Issuing => event is TokensIssued,
            FinishAuthState::Finished => false,
        }
    }

    /// Begins the second half of a passkey sign-in: the ceremony state named by
    /// `state_token` is read from the cache.
    pub fn start(state_token: &str, credential: webauthn_rs::prelude::PublicKeyCredential) -> (r: (
        FinishAuthState,
        FinishAuthAction,
    ))
        ensures
            r.0 matches FinishAuthState::ReadingState { state_key, .. } && state_key@
                == "webauthn:signin:"@ + state_token@,
            r.1 matches FinishAuthAction::ReadState(key) && key@ == "webauthn:signin:"@
                + state_token@,
    {
        let state_key = signin_state_key(state_token);
        let read = signin_state_key(state_token);
        (FinishAuthState::ReadingState { state_key, credential }, FinishAuthAction::ReadState(read))
    }

    /// Takes the outcome of the last action and decides the next one.
    pub fn step(self, event: FinishAuthEvent, webauthn: &webauthn_rs::Webauthn) -> (r: (
        FinishAuthState,
        FinishAuthAction,
    ))
        requires
            self.accepts(event),
        ensures
            finish_auth_step_spec(self, event, r.0, r.1),
    {
        match self {
            FinishAuthState::ReadingState { state_key, credential } => match event {
                FinishAuthEvent::StateRead(found) => {
                    let stored = match stored_ceremony_state(found) {
                        Ok(s) => s,
                        Err(e) => return (FinishAuthState::Finished, FinishAuthAction::Reply(Err(e))),
                    };
                    let ceremony = match parse_authentication_state(stored.as_str()) {
                        Some(c) => c,
                        None => return (
                            FinishAuthState::Finished,
                            FinishAuthAction::Reply(
                                Err(app_error(ErrorKind::Internal, "invalid registration state")),
                            ),
                        ),
                    };
                    let checked = complete_authentication(webauthn, &credential, &ceremony);
                    let r = after_assertion(state_key, checked);
                    assert(after_assertion_spec(state_key, checked, r.0, r.1));
                    r
                },
                _ => {
                    assert(false);
                    (FinishAuthState::Finished, FinishAuthAction::FindUser(0))
                },
            },
            FinishAuthState::FindingPasskey { state_key, result } => match event {
                FinishAuthEvent::PasskeyFound(Ok(p)) => {
                    let user_id = p.user_id;
                    (
                        FinishAuthState::FindingUser { state_key, result, passkey: p },
                        FinishAuthAction::FindUser(user_id),
                    )
                },
                FinishAuthEvent::PasskeyFound(Err(e)) => (
                    FinishAuthState::Finished,
                    FinishAuthAction::Reply(Err(e)),
                ),
                _ => {
                    assert(false);
                    (FinishAuthState::Finished, FinishAuthAction::FindUser(0))
                },
            },
            FinishAuthState::FindingUser { state_key, result, passkey } => match event {
                FinishAuthEvent::UserFound(Ok(user)) => {
                    let updated = updated_credential(&passkey, &result);
                    let ghost (k, u, p) = (state_key, user, passkey);
                    let r = after_credential_update(state_key, user, passkey, updated);
                    assert(credential_update_spec(k, u, p, updated, r.0, r.1));
                    r
                },
                FinishAuthEvent::UserFound(Err(e)) => (
                    FinishAuthState::Finished,
                    FinishAuthAction::Reply(Err(e)),
                ),
                _ => {
                    assert(false);
                    (FinishAuthState::Finished, FinishAuthAction::FindUser(0))
                },
            },
            FinishAuthState::SavingPasskey { state_key, user } => match event {
                FinishAuthEvent::PasskeySaved(Ok(())) => (
                    FinishAuthState::DeletingState { user },
                    FinishAuthAction::DeleteState(state_key),
                ),
                FinishAuthEvent::PasskeySaved(Err(e)) => (
                    FinishAuthState::Finished,
                    FinishAuthAction::Reply(Err(e)),
                ),
                _ => {
                    assert(false);
                    (FinishAuthState::Finished, FinishAuthAction::FindUser(0))
                },
            },
            FinishAuthState::DeletingState { user } => match event {
                FinishAuthEvent::StateDeleted(Ok(())) => {
                    let id = user.id;
                    (FinishAuthState::CreatingSession { user }, FinishAuthAction::CreateSession(id))
                },
                FinishAuthEvent::StateDeleted(Err(())) => (
                    FinishAuthState::Finished,
                    FinishAuthAction::Reply(
                        Err(app_error(ErrorKind::Internal, "failed to delete auth state")),
                    ),
                ),
                _ => {
                    assert(false);
                    (FinishAuthState::Finished, FinishAuthAction::FindUser(0))
                },
            },
            FinishAuthState::CreatingSession { user } => match event {
                FinishAuthEvent::SessionCreated(Ok(jti)) => (
                    FinishAuthState::Issuing,
                    FinishAuthAction::IssueTokens {
                        user_id: user.id,
                        email: user.email,
                        role: user.role,
                        jti,
                    },
                ),
                FinishAuthEvent::SessionCreated(Err(e)) => (
                    FinishAuthState::Finished,
                    FinishAuthAction::Reply(Err(e)),
                ),
                _ => {
                    assert(false);
                    (FinishAuthState::Finished, FinishAuthAction::FindUser(0))
                },
            },
            FinishAuthState::Issuing => match event {
                FinishAuthEvent::TokensIssued(Ok((tokens, json))) => {
                    let cookie = passkey_session_cookie(json);
                    (
                        FinishAuthState::Finished,
                        FinishAuthAction::Reply(Ok(PasskeySignin { tokens, cookie })),
                    )
                },
                _ => (
                    FinishAuthState::Finished,
                    FinishAuthAction::Reply(
                        Err(app_error(ErrorKind::Unauthorized, "failed to generate token")),
                    ),
                ),
            },
            FinishAuthState::Finished => {
                assert(false);
                (FinishAuthState::Finished, FinishAuthAction::FindUser(0))
            },
        }
    }
}

} // verus!
