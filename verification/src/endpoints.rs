//! Decisions of the HTTP handlers: sign-in replies and cookies, token refresh, and the
//! WebAuthn ceremony state kept in the cache between its two requests.

use vstd::prelude::*;
use vstd::string::{StrSliceExecFns, StringExecFns};
use crate::config::AppConfig;
use crate::cookie::{set_cookie, Cookie};
use crate::db::DbError;
use crate::entities::{Session, User};
use crate::error::{app_error, fails_with, text, AppError, ErrorKind};
use crate::ids::{parse_uuid, uuid_parse, uuid_text, uuid_to_string, NIL_UUID};
use crate::jwt::RefreshClaims;
use crate::models::AccessTokenResponse;
use crate::token::{check_refresh_claims_at, refresh_claims_accepted, TokenError};

verus! {

/// Seconds a registration ceremony's state is kept.
pub const REGISTRATION_STATE_TTL_SECONDS: i64 = 120;

/// Seconds a sign-in ceremony's state is kept.
pub const SIGNIN_STATE_TTL_SECONDS: i64 = 300;

/// Lifetime of the cookie that carries the tokens of a passkey sign-in, in seconds.
pub const PASSKEY_COOKIE_MAX_AGE: i64 = 900;

/// The client's user agent, `unknown` when the request names none (or none readable).
pub fn client_user_agent(header: Option<&str>) -> (ua: String)
    ensures
        header matches Some(h) ==> ua@ == h@,
        header is None ==> ua@ == "unknown"@,
{
    match header {
        Some(h) => text(h),
        None => text("unknown"),
    }
}

/// The token pair of a sign-in, or `401 failed to generate token` when issuing failed.
pub fn token_pair_issued(issued: Result<AccessTokenResponse, TokenError>) -> (r: Result<
    AccessTokenResponse,
    AppError,
>)
    ensures
        issued matches Ok(t) ==> r == Ok::<AccessTokenResponse, AppError>(t),
        issued is Err ==> fails_with(r, ErrorKind::Unauthorized, "failed to generate token"@),
{
    match issued {
        Ok(tokens) => Ok(tokens),
        Err(_) => Err(app_error(ErrorKind::Unauthorized, "failed to generate token")),
    }
}

/// The two cookies of a password sign-in or a refresh: `m_session` with the access
/// token, for the access-token lifetime, and `m_refresh` with the refresh token, for the
/// refresh-token lifetime.
pub fn session_cookies(tokens: &AccessTokenResponse, config: &AppConfig) -> (r: (Cookie, Cookie))
    ensures
        r.0.name@ == "m_session"@,
        r.0.value == tokens.access_token,
        r.0.max_age == config.access_token_expiry,
        r.1.name@ == "m_refresh"@,
        r.1.value == tokens.refresh_token,
        r.1.max_age == config.refresh_token_expiry,
        r.0.path@ == "/"@ && r.0.http_only && r.0.secure,
        r.1.path@ == "/"@ && r.1.http_only && r.1.secure,
{
    let access = set_cookie(
        text("m_session"),
        tokens.access_token.clone(),
        config.access_token_expiry,
    );
    let refresh = set_cookie(
        text("m_refresh"),
        tokens.refresh_token.clone(),
        config.refresh_token_expiry,
    );
    (access, refresh)
}

/// The cookie of a passkey sign-in: `g_id`, holding the serialized token pair, for 15
/// minutes.
pub fn passkey_session_cookie(serialized_tokens: String) -> (c: Cookie)
    ensures
        c.name@ == "g_id"@,
        c.value == serialized_tokens,
        c.max_age == PASSKEY_COOKIE_MAX_AGE,
        c.path@ == "/"@ && c.http_only && c.secure,
{
    set_cookie(text("g_id"), serialized_tokens, PASSKEY_COOKIE_MAX_AGE)
}

/// The state token of a registration ceremony: a fresh UUID, a colon, and the id of the
/// user registering.
pub open spec fn registration_state_text(nonce: u128, user_id: u128) -> Seq<char> {
    uuid_text(nonce) + seq![':'] + uuid_text(user_id)
}

/// The state token of a registration ceremony for `user_id`, made with the UUID `nonce`.
pub fn registration_state_id(nonce: u128, user_id: u128) -> (id: String)
    ensures
        id@ == registration_state_text(nonce, user_id),
{
    let mut id = uuid_to_string(nonce);
    id.append(":");
    let owner = uuid_to_string(user_id);
    id.append(owner.as_str());
    proof {
        reveal_strlit(":");
    }
    id
}

/// The cache key of a registration ceremony's state.
pub fn registration_state_key(state_token: &str) -> (key: String)
    ensures
        key@ == "webauthn:reg:"@ + state_token@,
{
    let mut key = text("webauthn:reg:");
    key.append(state_token);
    key
}

/// The cache key of a sign-in ceremony's state.
pub fn signin_state_key(state_token: &str) -> (key: String)
    ensures
        key@ == "webauthn:signin:"@ + state_token@,
{
    let mut key = text("webauthn:signin:");
    key.append(state_token);
    key
}

/// Whether `i` is the position of the only colon of `t`.
pub open spec fn only_colon_at(t: Seq<char>, i: int) -> bool {
    &&& 0 <= i < t.len()
    &&& t[i] == ':'
    &&& forall|j: int| 0 <= j < t.len() && j != i ==> t[j] != ':'
}

/// The user id part of a state token: what follows its colon, where it has exactly one
/// (`split(':')` gives two parts).
pub open spec fn state_token_owner(t: Seq<char>) -> Option<Seq<char>> {
    if exists|i: int| only_colon_at(t, i) {
        Some(t.subrange((choose|i: int| only_colon_at(t, i)) + 1, t.len() as int))
    } else {
        None
    }
}

/// The user id part of a registration state token; a token that does not split into
/// two parts at colons is `500 invalid state token`.
pub fn user_id_of_state_token(state_token: &str) -> (r: Result<String, AppError>)
    ensures
        state_token_owner(state_token@) matches Some(owner) ==> (r matches Ok(s) && s@ == owner),
        state_token_owner(state_token@) is None ==> fails_with(
            r,
            ErrorKind::Internal,
            "invalid state token"@,
        ),
{
    let n = state_token.unicode_len();
    let mut colons: usize = 0;
    let mut first: usize = 0;
    let mut i: usize = 0;
    while i < n
        invariant
            n == state_token@.len(),
            i <= n,
            colons <= i,
            colons == 0 ==> forall|j: int| 0 <= j < i ==> state_token@[j] != ':',
            colons >= 1 ==> first < i && state_token@[first as int] == ':',
            colons == 1 ==> forall|j: int|
                0 <= j < i && j != first ==> state_token@[j] != ':',
            colons >= 2 ==> exists|j: int|
                0 <= j < i && j != first && state_token@[j] == ':',
        decreases n - i,
    {
        let c = state_token.get_char(i);
        if c == ':' {
            if colons == 0 {
                first = i;
            }
            colons = colons + 1;
        }
        i = i + 1;
    }
    let ghost t = state_token@;
    if colons != 1 {
        proof {
            if exists|k: int| only_colon_at(t, k) {
                let k = choose|k: int| only_colon_at(t, k);
                if colons >= 2 {
                    let j = choose|j: int| 0 <= j < n && j != first && t[j] == ':';
                    assert(t[first as int] == ':');
                    assert(false);
                }
            }
        }
        return Err(app_error(ErrorKind::Internal, "invalid state token"));
    }
    assert(only_colon_at(t, first as int));
    proof {
        let k = choose|k: int| only_colon_at(t, k);
        assert(k == first);
    }
    Ok(text(state_token.substring_char(first + 1, n)))
}

/// The id of the user registering, from the user id part of a registration state token
/// (`None` where it is not a UUID).
pub fn registration_owner_id(user_id_text: &str) -> (id: Option<u128>)
    ensures
        id == uuid_parse(user_id_text@),
        forall|u: u128| user_id_text@ == uuid_text(u) ==> id == Some(u),
{
    parse_uuid(user_id_text)
}

/// A registration state token names back the user it was made for.
pub proof fn lemma_registration_token_names_its_user(nonce: u128, user_id: u128)
    ensures
        state_token_owner(registration_state_text(nonce, user_id)) == Some(uuid_text(user_id)),
{
    crate::ids::lemma_uuid_text_has_no_colon(nonce);
    crate::ids::lemma_uuid_text_has_no_colon(user_id);
    let t = registration_state_text(nonce, user_id);
    assert(t.len() == 73);
    assert(t[36] == ':');
    assert forall|j: int| 0 <= j < t.len() && j != 36 implies t[j] != ':' by {
        if j < 36 {
            assert(t[j] == uuid_text(nonce)[j]);
        } else {
            assert(t[j] == uuid_text(user_id)[j - 37]);
        }
    }
    assert(only_colon_at(t, 36));
    let k = choose|k: int| only_colon_at(t, k);
    assert(k == 36);
    assert(t.subrange(37, 73) =~= uuid_text(user_id));
}

/// The ceremony state read back from the cache: a cache failure is `500 redis error`, a
/// missing state (expired or never made) `401 registration state not found`.
pub fn stored_ceremony_state(found: Result<Option<String>, ()>) -> (r: Result<String, AppError>)
    ensures
        found matches Ok(Some(s)) ==> r == Ok::<String, AppError>(s),
        found matches Ok(None) ==> fails_with(
            r,
            ErrorKind::Unauthorized,
            "registration state not found"@,
        ),
        found is Err ==> fails_with(r, ErrorKind::Internal, "redis error"@),
{
    match found {
        Ok(Some(state)) => Ok(state),
        Ok(None) => Err(app_error(ErrorKind::Unauthorized, "registration state not found")),
        Err(()) => Err(app_error(ErrorKind::Internal, "redis error")),
    }
}

/// State read back from the cache: a cache failure is `500 redis error`, a missing state
/// `401 state not found`.
pub fn cached_state(found: Result<Option<String>, ()>) -> (r: Result<String, AppError>)
    ensures
        found matches Ok(Some(s)) ==> r == Ok::<String, AppError>(s),
        found matches Ok(None) ==> fails_with(r, ErrorKind::Unauthorized, "state not found"@),
        found is Err ==> fails_with(r, ErrorKind::Internal, "redis error"@),
{
    match found {
        Ok(Some(state)) => Ok(state),
        Ok(None) => Err(app_error(ErrorKind::Unauthorized, "state not found")),
        Err(()) => Err(app_error(ErrorKind::Internal, "redis error")),
    }
}

/// A passkey sign-in needs at least one registered passkey: `500 passkeys not found`
/// otherwise (the sign-in options cannot be made).
pub fn require_passkeys(count: usize) -> (r: Result<(), AppError>)
    ensures
        count > 0 ==> r is Ok,
        count == 0 ==> fails_with(r, ErrorKind::Internal, "passkeys not found"@),
{
    if count == 0 {
        Err(app_error(ErrorKind::Internal, "passkeys not found"))
    } else {
        Ok(())
    }
}

/// The reply of a granted refresh: the new token pair and its two cookies.
#[derive(Debug)]
pub struct RefreshReply {
    pub tokens: AccessTokenResponse,
    pub access_cookie: Cookie,
    pub refresh_cookie: Cookie,
}

/// Where a token refresh stands.
#[derive(Debug)]
pub enum RefreshState {
    /// The session the refresh token names is being looked up.
    FindingSession { claims: RefreshClaims },
    /// The account the token was issued to is being looked up.
    FindingUser { claims: RefreshClaims },
    /// A new token pair is being issued.
    Issuing,
    Finished,
}

/// The outcome of the last action of a refresh.
#[derive(Debug)]
pub enum RefreshEvent {
    SessionFound(Result<Session, DbError>),
    UserFound(Result<User, DbError>),
    TokensIssued(Result<AccessTokenResponse, TokenError>),
}

/// What the application does next in a refresh.
#[derive(Debug)]
pub enum RefreshAction {
    FindSession(u128),
    FindUser(u128),
    /// Issue a token pair for this user, in the session `jti`.
    IssueTokens { user_id: u128, email: String, role: String, jti: u128 },
    Reply(Result<RefreshReply, AppError>),
}

/// Whether `action` replies with the error `kind`/`message`.
pub open spec fn refresh_rejects(action: RefreshAction, kind: ErrorKind, message: Seq<char>) -> bool {
    action matches RefreshAction::Reply(r) && fails_with(r, kind, message)
}

/// The refusal of a refresh token that is invalid, expired, or names no live session.
pub open spec fn bad_refresh_token() -> Seq<char> {
    "invalid/expired refresh token"@
}

/// How a refresh begins, at instant `now`, from the decoded refresh token (`None` when
/// it did not decode).
pub open spec fn refresh_start_spec(
    decoded: Option<RefreshClaims>,
    now: int,
    next: RefreshState,
    action: RefreshAction,
) -> bool {
    match decoded {
        Some(c) => if refresh_claims_accepted(c, now) {
            next == (RefreshState::FindingSession { claims: c }) && action
                == RefreshAction::FindSession(c.jti)
        } else {
            next is Finished && refresh_rejects(action, ErrorKind::BadRequest, bad_refresh_token())
        },
        None => next is Finished && refresh_rejects(
            action,
            ErrorKind::BadRequest,
            bad_refresh_token(),
        ),
    }
}

/// One step of a refresh at instant `now`.
pub open spec fn refresh_step_spec(
    state: RefreshState,
    event: RefreshEvent,
    now: int,
    config: AppConfig,
    next: RefreshState,
    action: RefreshAction,
) -> bool {
    match state {
        RefreshState::FindingSession { claims } => match event {
            RefreshEvent::SessionFound(Ok(session)) => if session.expired_at(now) {
                next is Finished && refresh_rejects(
                    action,
                    ErrorKind::BadRequest,
                    bad_refresh_token(),
                )
            } else {
                next == (RefreshState::FindingUser { claims }) && action == RefreshAction::FindUser(
                    claims.sub,
                )
            },
            RefreshEvent::SessionFound(Err(_)) => next is Finished && refresh_rejects(
                action,
                ErrorKind::BadRequest,
                bad_refresh_token(),
            ),
            _ => false,
        },
        RefreshState::FindingUser { claims } => match event {
            RefreshEvent::UserFound(Ok(user)) => next is Issuing && action
                == RefreshAction::IssueTokens {
                user_id: user.id,
                email: user.email,
                role: user.role,
                jti: claims.jti,
            },
            RefreshEvent::UserFound(Err(_)) => next is Finished && refresh_rejects(
                action,
                ErrorKind::NotFound,
                "User not found"@,
            ),
            _ => false,
        },
        RefreshState::Issuing => match event {
            RefreshEvent::TokensIssued(Ok(tokens)) => {
                &&& next is Finished
                &&& action matches RefreshAction::Reply(Ok(reply))
                &&& reply.tokens == tokens
                &&& reply.access_cookie.name@ == "m_session"@
                &&& reply.access_cookie.value == tokens.access_token
                &&& reply.access_cookie.max_age == config.access_token_expiry
                &&& reply.refresh_cookie.name@ == "m_refresh"@
                &&& reply.refresh_cookie.value == tokens.refresh_token
                &&& reply.refresh_cookie.max_age == config.refresh_token_expiry
                &&& reply.access_cookie.path@ == "/"@ && reply.access_cookie.http_only
                    && reply.access_cookie.secure
                &&& reply.refresh_cookie.path@ == "/"@ && reply.refresh_cookie.http_only
                    && reply.refresh_cookie.secure
            },
            RefreshEvent::TokensIssued(Err(_)) => next is Finished && refresh_rejects(
                action,
                ErrorKind::Unauthorized,
                "failed to generate token"@,
            ),
            _ => false,
        },
        RefreshState::Finished => false,
    }
}

/// A refresh that reaches the issuing of new tokens went through an accepted refresh
/// token and a session that had not expired when it was read, and the new tokens are
/// issued to the account found, in the session the refresh token names.
pub proof fn lemma_refresh_issues_only_for_live_session(
    decoded: Option<RefreshClaims>,
    config: AppConfig,
    start_at: int,
    session: Session,
    session_at: int,
    user: User,
    user_at: int,
    s1: RefreshState,
    a1: RefreshAction,
    s2: RefreshState,
    a2: RefreshAction,
    s3: RefreshState,
    a3: RefreshAction,
)
    requires
        refresh_start_spec(decoded, start_at, s1, a1),
        s1.accepts(RefreshEvent::SessionFound(Ok(session))),
        refresh_step_spec(s1, RefreshEvent::SessionFound(Ok(session)), session_at, config, s2, a2),
        s2.accepts(RefreshEvent::UserFound(Ok(user))),
        refresh_step_spec(s2, RefreshEvent::UserFound(Ok(user)), user_at, config, s3, a3),
    ensures
        decoded matches Some(c) && refresh_claims_accepted(c, start_at),
        a1 == RefreshAction::FindSession(decoded.unwrap().jti),
        !session.expired_at(session_at),
        a2 == RefreshAction::FindUser(decoded.unwrap().sub),
        a3 == (RefreshAction::IssueTokens {
            user_id: user.id,
            email: user.email,
            role: user.role,
            jti: decoded.unwrap().jti,
        }),
        s3 is Issuing,
{
}

impl RefreshState {
    /// Whether the state waits for this kind of event.
    pub open spec fn accepts(self, event: RefreshEvent) -> bool {
        match self {
            RefreshState::FindingSession { .. } => event is SessionFound,
            RefreshState::FindingUser { .. } => event is UserFound,
            RefreshState::Issuing => event is TokensIssued,
            RefreshState::Finished => false,
        }
    }

    /// Begins a refresh at instant `now` with the decoded refresh token: it must be a
    /// refresh token that has not expired, else `400 invalid/expired refresh token`.
    pub fn start(decoded: Option<RefreshClaims>, now: i64) -> (r: (RefreshState, RefreshAction))
        requires
            crate::time::representable(now as int),
        ensures
            refresh_start_spec(decoded, now as int, r.0, r.1),
    {
        match check_refresh_claims_at(decoded, now) {
            Ok(claims) => {
                let jti = claims.jti;
                (RefreshState::FindingSession { claims }, RefreshAction::FindSession(jti))
            },
            Err(_) => (
                RefreshState::Finished,
                RefreshAction::Reply(
                    Err(app_error(ErrorKind::BadRequest, "invalid/expired refresh token")),
                ),
            ),
        }
    }

    /// Takes the outcome of the last action, at instant `now`, and decides the next one.
    /// A session read back from the store has a non-nil id.
    pub fn step(self, event: RefreshEvent, now: i64, config: &AppConfig) -> (r: (
        RefreshState,
        RefreshAction,
    ))
        requires
            self.accepts(event),
            event matches RefreshEvent::SessionFound(Ok(s)) ==> s.id != NIL_UUID,
        ensures
            refresh_step_spec(self, event, now as int, *config, r.0, r.1),
    {
        match self {
            RefreshState::FindingSession { claims } => match event {
                RefreshEvent::SessionFound(Ok(session)) => {
                    if session.is_expired_at(now) {
                        (
                            RefreshState::Finished,
                            RefreshAction::Reply(
                                Err(
                                    app_error(
                                        ErrorKind::BadRequest,
                                        "invalid/expired refresh token",
                                    ),
                                ),
                            ),
                        )
                    } else {
                        let sub = claims.sub;
                        (RefreshState::FindingUser { claims }, RefreshAction::FindUser(sub))
                    }
                },
                _ => (
                    RefreshState::Finished,
                    RefreshAction::Reply(
                        Err(app_error(ErrorKind::BadRequest, "invalid/expired refresh token")),
                    ),
                ),
            },
            RefreshState::FindingUser { claims } => match event {
                RefreshEvent::UserFound(Ok(user)) => (
                    RefreshState::Issuing,
                    RefreshAction::IssueTokens {
                        user_id: user.id,
                        email: user.email,
                        role: user.role,
                        jti: claims.jti,
                    },
                ),
                _ => (
                    RefreshState::Finished,
                    RefreshAction::Reply(Err(app_error(ErrorKind::NotFound, "User not found"))),
                ),
            },
            RefreshState::Issuing => match event {
                RefreshEvent::TokensIssued(Ok(tokens)) => {
                    let (access_cookie, refresh_cookie) = session_cookies(&tokens, config);
                    (
                        RefreshState::Finished,
                        RefreshAction::Reply(Ok(RefreshReply { tokens, access_cookie, refresh_cookie })),
                    )
                },
                _ => (
                    RefreshState::Finished,
                    RefreshAction::Reply(
                        Err(app_error(ErrorKind::Unauthorized, "failed to generate token")),
                    ),
                ),
            },
            RefreshState::Finished => {
                assert(false);
                (RefreshState::Finished, RefreshAction::FindUser(NIL_UUID))
            },
        }
    }
}

} // verus!
