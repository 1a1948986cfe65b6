//! The decisions of the account, session and passkey services. Each service call waits
//! on the database between its decisions; the application performs the database calls
//! and hands their outcomes to these functions, which decide the reply (or the next
//! call, for the flows of several steps).

use vstd::prelude::*;
use crate::db::{unique_violation_code, DatabaseError, DbError};
use crate::entities::{Passkey, Provider, Session, User};
use crate::error::{app_error, fails_with, message_error, AppError, ErrorKind};
use crate::password::{bcrypt_verifies, hash_password};
use crate::models::{SignInProviderRequest, UserUpdateRequest};
use crate::time::{add_seconds, after_seconds, representable};

verus! {

/// Whether a database error is a violation of a unique constraint (SQLSTATE 23505).
pub open spec fn is_unique_violation(e: DbError) -> bool {
    e matches DbError::Database(d) && d.code matches Some(code) && code@ == unique_violation_code()
}

/// `get_user_by_id` and `get_user_by_email`: a missing account is `404 user not found`.
pub fn user_found(found: Result<User, DbError>) -> (r: Result<User, AppError>)
    ensures
        found matches Ok(u) ==> r == Ok::<User, AppError>(u),
        found is Err ==> fails_with(r, ErrorKind::NotFound, "user not found"@),
{
    match found {
        Ok(user) => Ok(user),
        Err(_) => Err(app_error(ErrorKind::NotFound, "user not found")),
    }
}

/// The session that `create_session` stores: for `user_id`, from the client `ip` and
/// `user_agent`, expiring `lifetime` seconds after `now`.
pub fn new_session_at(user_id: u128, user_agent: String, ip: String, now: i64, lifetime: i64) -> (s:
    Session)
    requires
        representable(now as int),
        representable(after_seconds(now as int, lifetime as int)),
    ensures
        s.id == crate::ids::NIL_UUID,
        s.user_id == user_id,
        s.user_agent == user_agent,
        s.ip == ip,
        s.expires_at == after_seconds(now as int, lifetime as int),
{
    Session::new(ip, user_agent, user_id, add_seconds(now, lifetime))
}

/// `create_session`: the id of the stored session, or `500 failed to create session`.
pub fn session_created(created: Result<Session, DbError>) -> (r: Result<u128, AppError>)
    ensures
        created matches Ok(s) ==> r == Ok::<u128, AppError>(s.id),
        created is Err ==> fails_with(r, ErrorKind::Internal, "failed to create session"@),
{
    match created {
        Ok(session) => Ok(session.id),
        Err(_) => Err(app_error(ErrorKind::Internal, "failed to create session")),
    }
}

/// `delete_session`: `500 failed to delete session` when the deletion fails.
pub fn session_deleted(deleted: Result<(), DbError>) -> (r: Result<(), AppError>)
    ensures
        deleted is Ok ==> r is Ok,
        deleted is Err ==> fails_with(r, ErrorKind::Internal, "failed to delete session"@),
{
    match deleted {
        Ok(()) => Ok(()),
        Err(_) => Err(app_error(ErrorKind::Internal, "failed to delete session")),
    }
}

/// `find_session_by_id`: a missing session is `404 session not found`.
pub fn session_found(found: Result<Session, DbError>) -> (r: Result<Session, AppError>)
    ensures
        found matches Ok(s) ==> r == Ok::<Session, AppError>(s),
        found is Err ==> fails_with(r, ErrorKind::NotFound, "session not found"@),
{
    match found {
        Ok(session) => Ok(session),
        Err(_) => Err(app_error(ErrorKind::NotFound, "session not found")),
    }
}

/// `add_passkey`: `400 failed to add passkey` when the insert fails.
pub fn passkey_added(added: Result<(), DbError>) -> (r: Result<(), AppError>)
    ensures
        added is Ok ==> r is Ok,
        added is Err ==> fails_with(r, ErrorKind::BadRequest, "failed to add passkey"@),
{
    match added {
        Ok(()) => Ok(()),
        Err(_) => Err(app_error(ErrorKind::BadRequest, "failed to add passkey")),
    }
}

/// `find_all_passkeys`: `404 Passkey not found` when the query fails.
pub fn passkeys_found(found: Result<Vec<Passkey>, DbError>) -> (r: Result<Vec<Passkey>, AppError>)
    ensures
        found matches Ok(keys) ==> r == Ok::<Vec<Passkey>, AppError>(keys),
        found is Err ==> fails_with(r, ErrorKind::NotFound, "Passkey not found"@),
{
    match found {
        Ok(keys) => Ok(keys),
        Err(_) => Err(app_error(ErrorKind::NotFound, "Passkey not found")),
    }
}

/// `find_passkey`: `404 Passkey not found` when there is none.
pub fn passkey_found(found: Result<Passkey, DbError>) -> (r: Result<Passkey, AppError>)
    ensures
        found matches Ok(k) ==> r == Ok::<Passkey, AppError>(k),
        found is Err ==> fails_with(r, ErrorKind::NotFound, "Passkey not found"@),
{
    match found {
        Ok(key) => Ok(key),
        Err(_) => Err(app_error(ErrorKind::NotFound, "Passkey not found")),
    }
}

/// `update_passkey`: `500 failed to update passkey` when the update fails.
pub fn passkey_updated(updated: Result<(), DbError>) -> (r: Result<(), AppError>)
    ensures
        updated is Ok ==> r is Ok,
        updated is Err ==> fails_with(r, ErrorKind::Internal, "failed to update passkey"@),
{
    match updated {
        Ok(()) => Ok(()),
        Err(_) => Err(app_error(ErrorKind::Internal, "failed to update passkey")),
    }
}

/// `add_user`, first step: an account with a password has it hashed before it is
/// stored (`Some(password)` to hash), one without is stored as it is (`None`).
pub fn password_to_hash(user: &User) -> (p: Option<String>)
    ensures
        p == user.password,
{
    match &user.password {
        Some(password) => Some(password.clone()),
        None => None,
    }
}

/// `add_user`, after hashing: the account to store, with its password replaced by the
/// hash, or `500 failed to create user` when hashing failed.
pub fn with_hashed_password(user: User, hashed: Result<String, ()>) -> (r: Result<User, AppError>)
    ensures
        hashed matches Ok(h) ==> r == Ok::<User, AppError>(User { password: Some(h), ..user }),
        hashed is Err ==> fails_with(r, ErrorKind::Internal, "failed to create user"@),
{
    match hashed {
        Ok(hash) => {
            let mut user = user;
            user.password = Some(hash);
            Ok(user)
        },
        Err(()) => Err(hashing_failed()),
    }
}

/// The error of an account whose password could not be hashed: `500 failed to create
/// user`.
pub fn hashing_failed() -> (e: AppError)
    ensures
        e@ == message_error(ErrorKind::Internal, "failed to create user"@),
{
    app_error(ErrorKind::Internal, "failed to create user")
}

/// `add_user`, before the insert: an account with a password has it replaced by its
/// bcrypt hash, which the password checks out against; one without is kept as it is.
/// When hashing fails the account is refused with `500 failed to create user`.
pub fn hash_user_password(user: User) -> (r: Result<User, AppError>)
    ensures
        user.password is None ==> r == Ok::<User, AppError>(user),
        user.password matches Some(p) ==> (r matches Ok(stored) ==> (stored.password matches Some(
            h) && bcrypt_verifies(p@, h@) == Some(true) && stored == (User {
            password: Some(h),
            ..user
        }))),
        r is Err ==> user.password is Some && fails_with(r, ErrorKind::Internal, "failed to create user"@),
{
    match password_to_hash(&user) {
        None => Ok(user),
        Some(password) => {
            let hashed: Result<String, ()> = match hash_password(password.as_str()) {
                Ok(h) => Ok(h),
                Err(_) => Err(()),
            };
            with_hashed_password(user, hashed)
        },
    }
}

fn is_unique_violation_code(d: &DatabaseError) -> (b: bool)
    ensures
        b == (d.code matches Some(code) && code@ == unique_violation_code()),
{
    match &d.code {
        Some(code) => *code == crate::error::text("23505"),
        None => false,
    }
}

/// `add_user`, after the insert: an account that already exists (unique violation) is
/// `409 already exists`; any other failure is `400 failed to create user`.
pub fn user_added(inserted: Result<(), DbError>) -> (r: Result<(), AppError>)
    ensures
        inserted is Ok ==> r is Ok,
        inserted matches Err(e) ==> (is_unique_violation(e) ==> fails_with(
            r,
            ErrorKind::Conflict,
            "already exists"@,
        )),
        inserted matches Err(e) ==> (!is_unique_violation(e) ==> fails_with(
            r,
            ErrorKind::BadRequest,
            "failed to create user"@,
        )),
{
    match inserted {
        Ok(()) => Ok(()),
        Err(DbError::Database(d)) => {
            if is_unique_violation_code(&d) {
                Err(app_error(ErrorKind::Conflict, "already exists"))
            } else {
                Err(app_error(ErrorKind::BadRequest, "failed to create user"))
            }
        },
        Err(_) => Err(app_error(ErrorKind::BadRequest, "failed to create user")),
    }
}

/// `delete_user_by_id` and `update_user`, first step: the account must exist, else
/// `404 User not found`.
pub fn existing_user(found: Result<User, DbError>) -> (r: Result<User, AppError>)
    ensures
        found matches Ok(u) ==> r == Ok::<User, AppError>(u),
        found is Err ==> fails_with(r, ErrorKind::NotFound, "User not found"@),
{
    match found {
        Ok(user) => Ok(user),
        Err(_) => Err(app_error(ErrorKind::NotFound, "User not found")),
    }
}

/// `delete_user_by_id`, after the deletion: `500 Failed to delete user` when it failed.
pub fn user_deleted(deleted: Result<(), DbError>) -> (r: Result<(), AppError>)
    ensures
        deleted is Ok ==> r is Ok,
        deleted is Err ==> fails_with(r, ErrorKind::Internal, "Failed to delete user"@),
{
    match deleted {
        Ok(()) => Ok(()),
        Err(_) => Err(app_error(ErrorKind::Internal, "Failed to delete user")),
    }
}

/// `update_user`: the stored account with the requested name, everything else kept.
pub fn updated_user(current: User, request: UserUpdateRequest) -> (u: User)
    ensures
        u == (User { name: request.name, ..current }),
{
    let mut u = current;
    u.name = request.name;
    u
}

/// `update_user`, after the update: `500 Failed to update user` when it failed.
pub fn user_updated(updated: Result<(), DbError>) -> (r: Result<(), AppError>)
    ensures
        updated is Ok ==> r is Ok,
        updated is Err ==> fails_with(r, ErrorKind::Internal, "Failed to update user"@),
{
    match updated {
        Ok(()) => Ok(()),
        Err(_) => Err(app_error(ErrorKind::Internal, "Failed to update user")),
    }
}

/// Where a sign-in through an outside provider stands.
#[derive(Debug)]
pub enum ProviderSigninState {
    /// The provider link of the account id is being looked up.
    FindingLink { provider_name: String, credentials: SignInProviderRequest },
    /// The account of an existing link is being looked up.
    FindingLinkedUser,
    /// A new account is being created (its outcome is not looked at).
    AddingUser { provider_name: String, account_id: String, email: String },
    /// The new account is being looked up by e-mail.
    FindingNewUser { provider_name: String, account_id: String },
    /// The new link to the account is being stored.
    Linking { user: User },
    Finished,
}

/// The outcome of the last action of a provider sign-in.
#[derive(Debug)]
pub enum ProviderSigninEvent {
    LinkFound(Result<Provider, DbError>),
    LinkedUserFound(Result<User, DbError>),
    UserAdded(Result<(), AppError>),
    NewUserFound(Result<User, DbError>),
    Linked(Result<Provider, DbError>),
}

/// What the application does next in a provider sign-in.
#[derive(Debug)]
pub enum ProviderSigninAction {
    FindLink { account_id: String },
    FindUserById(u128),
    AddUser(User),
    FindUserByEmail(String),
    CreateLink(Provider),
    Reply(Result<User, AppError>),
}

/// Whether `action` replies with the error `kind`/`message`.
pub open spec fn provider_rejects(action: ProviderSigninAction, kind: ErrorKind, message: Seq<char>) -> bool {
    action matches ProviderSigninAction::Reply(r) && fails_with(r, kind, message)
}

/// One step of a provider sign-in, at instant `now`. An account id already linked signs
/// its account in; an unknown one creates a verified account in the role `user` with the
/// provider's profile, then links it.
pub open spec fn provider_step_spec(
    state: ProviderSigninState,
    event: ProviderSigninEvent,
    now: int,
    next: ProviderSigninState,
    action: ProviderSigninAction,
) -> bool {
    match state {
        ProviderSigninState::FindingLink { provider_name, credentials } => match event {
            ProviderSigninEvent::LinkFound(Ok(link)) => next is FindingLinkedUser && action
                == ProviderSigninAction::FindUserById(link.user_id),
            ProviderSigninEvent::LinkFound(Err(DbError::RowNotFound)) => {
                &&& next == ProviderSigninState::AddingUser {
                    provider_name,
                    account_id: credentials.account_id,
                    email: credentials.email,
                }
                &&& action matches ProviderSigninAction::AddUser(u)
                &&& u.name == credentials.name && u.email == credentials.email
                &&& u.password is None && u.image == Some(credentials.image)
                &&& u.role@ == "user"@ && u.email_verified && u.is_active
                &&& u.id == crate::ids::NIL_UUID && u.failed_login_count == 0
                &&& u.lockout_end is None
            },
            ProviderSigninEvent::LinkFound(Err(_)) => next is Finished && provider_rejects(
                action,
                ErrorKind::Internal,
                "provider not found"@,
            ),
            _ => false,
        },
        ProviderSigninState::FindingLinkedUser => match event {
            ProviderSigninEvent::LinkedUserFound(Ok(user)) => next is Finished && action
                == ProviderSigninAction::Reply(Ok(user)),
            ProviderSigninEvent::LinkedUserFound(Err(_)) => next is Finished && provider_rejects(
                action,
                ErrorKind::NotFound,
                "User not found"@,
            ),
            _ => false,
        },
        ProviderSigninState::AddingUser { provider_name, account_id, email } => match event {
            ProviderSigninEvent::UserAdded(_) => next == (ProviderSigninState::FindingNewUser {
                provider_name,
                account_id,
            }) && action == ProviderSigninAction::FindUserByEmail(email),
            _ => false,
        },
        ProviderSigninState::FindingNewUser { provider_name, account_id } => match event {
            ProviderSigninEvent::NewUserFound(Ok(user)) => {
                &&& next == ProviderSigninState::Linking { user }
                &&& action == ProviderSigninAction::CreateLink(
                    Provider {
                        id: crate::ids::NIL_UUID,
                        name: provider_name,
                        account_id,
                        user_id: user.id,
                        created_at: now as i64,
                    },
                )
            },
            ProviderSigninEvent::NewUserFound(Err(_)) => next is Finished && provider_rejects(
                action,
                ErrorKind::NotFound,
                "User not found"@,
            ),
            _ => false,
        },
        ProviderSigninState::Linking { user } => match event {
            ProviderSigninEvent::Linked(Ok(_)) => next is Finished && action
                == ProviderSigninAction::Reply(Ok(user)),
            ProviderSigninEvent::Linked(Err(_)) => next is Finished && provider_rejects(
                action,
                ErrorKind::Internal,
                "failed to create user"@,
            ),
            _ => false,
        },
        ProviderSigninState::Finished => false,
    }
}

/// The first sign-in through a provider with an account id it has not seen creates a
/// verified account with the provider's profile, looks it up by the provider's e-mail,
/// links exactly that account to the provider's account id, and signs it in.
pub proof fn lemma_first_provider_signin_links_new_account(
    provider_name: String,
    credentials: SignInProviderRequest,
    added: Result<(), AppError>,
    user: User,
    link: Provider,
    now: int,
    s1: ProviderSigninState,
    a1: ProviderSigninAction,
    s2: ProviderSigninState,
    a2: ProviderSigninAction,
    s3: ProviderSigninState,
    a3: ProviderSigninAction,
    s4: ProviderSigninState,
    a4: ProviderSigninAction,
)
    requires
        provider_step_spec(
            ProviderSigninState::FindingLink { provider_name, credentials },
            ProviderSigninEvent::LinkFound(Err(DbError::RowNotFound)),
            now,
            s1,
            a1,
        ),
        provider_step_spec(s1, ProviderSigninEvent::UserAdded(added), now, s2, a2),
        provider_step_spec(s2, ProviderSigninEvent::NewUserFound(Ok(user)), now, s3, a3),
        provider_step_spec(s3, ProviderSigninEvent::Linked(Ok(link)), now, s4, a4),
    ensures
        a1 matches ProviderSigninAction::AddUser(u) && u.email == credentials.email
            && u.email_verified && u.password is None,
        a2 == ProviderSigninAction::FindUserByEmail(credentials.email),
        a3 matches ProviderSigninAction::CreateLink(p) && p.user_id == user.id && p.account_id
            == credentials.account_id && p.name == provider_name,
        a4 == ProviderSigninAction::Reply(Ok(user)),
        s4 is Finished,
{
}

/// A sign-in through a provider whose account id is already linked (as the first
/// sign-in links it) signs in the linked account: the link leads to the account it names,
/// that account is the reply, and no account or link is created on the way.
pub proof fn lemma_linked_account_signs_in_again(
    provider_name: String,
    credentials: SignInProviderRequest,
    link: Provider,
    user: User,
    now: int,
    s1: ProviderSigninState,
    a1: ProviderSigninAction,
    s2: ProviderSigninState,
    a2: ProviderSigninAction,
)
    requires
        link.account_id == credentials.account_id,
        user.id == link.user_id,
        provider_step_spec(
            ProviderSigninState::FindingLink { provider_name, credentials },
            ProviderSigninEvent::LinkFound(Ok(link)),
            now,
            s1,
            a1,
        ),
        provider_step_spec(s1, ProviderSigninEvent::LinkedUserFound(Ok(user)), now, s2, a2),
    ensures
        a1 == ProviderSigninAction::FindUserById(user.id),
        !(a1 is AddUser) && !(a1 is CreateLink),
        !(a2 is AddUser) && !(a2 is CreateLink),
        a2 == ProviderSigninAction::Reply(Ok(user)),
        s2 is Finished,
{
}

impl ProviderSigninState {
    /// Whether the state waits for this kind of event.
    pub open spec fn accepts(self, event: ProviderSigninEvent) -> bool {
        match self {
            ProviderSigninState::FindingLink { .. } => event is LinkFound,
            ProviderSigninState::FindingLinkedUser => event is LinkedUserFound,
            ProviderSigninState::AddingUser { .. } => event is UserAdded,
            ProviderSigninState::FindingNewUser { .. } => event is NewUserFound,
            ProviderSigninState::Linking { .. } => event is Linked,
            ProviderSigninState::Finished => false,
        }
    }

    /// Begins a sign-in through the provider `provider_name`: its link for the account id
    /// is looked up.
    pub fn start(provider_name: String, credentials: SignInProviderRequest) -> (r: (
        ProviderSigninState,
        ProviderSigninAction,
    ))
        ensures
            r.1 == (ProviderSigninAction::FindLink { account_id: credentials.account_id }),
            r.0 == (ProviderSigninState::FindingLink { provider_name, credentials }),
    {
        let account_id = credentials.account_id.clone();
        (
            ProviderSigninState::FindingLink { provider_name, credentials },
            ProviderSigninAction::FindLink { account_id },
        )
    }

    /// Takes the outcome of the last action and decides the next one.
    pub fn step(self, event: ProviderSigninEvent, now: i64) -> (r: (
        ProviderSigninState,
        ProviderSigninAction,
    ))
        requires
            self.accepts(event),
        ensures
            provider_step_spec(self, event, now as int, r.0, r.1),
    {
        match self {
            ProviderSigninState::FindingLink { provider_name, credentials } => match event {
                ProviderSigninEvent::LinkFound(Ok(link)) => (
                    ProviderSigninState::FindingLinkedUser,
                    ProviderSigninAction::FindUserById(link.user_id),
                ),
                ProviderSigninEvent::LinkFound(Err(DbError::RowNotFound)) => {
                    let SignInProviderRequest { email, name, account_id, image } = credentials;
                    let mut new_user = User::new(
                        name,
                        email.clone(),
                        None,
                        Some(image),
                        crate::error::text("user"),
                    );
                    new_user.email_verified = true;
                    (
                        ProviderSigninState::AddingUser { provider_name, account_id, email },
                        ProviderSigninAction::AddUser(new_user),
                    )
                },
                _ => (
                    ProviderSigninState::Finished,
                    ProviderSigninAction::Reply(
                        Err(app_error(ErrorKind::Internal, "provider not found")),
                    ),
                ),
            },
            ProviderSigninState::FindingLinkedUser => match event {
                ProviderSigninEvent::LinkedUserFound(Ok(user)) => (
                    ProviderSigninState::Finished,
                    ProviderSigninAction::Reply(Ok(user)),
                ),
                _ => (
                    ProviderSigninState::Finished,
                    ProviderSigninAction::Reply(
                        Err(app_error(ErrorKind::NotFound, "User not found")),
                    ),
                ),
            },
            ProviderSigninState::AddingUser { provider_name, account_id, email } => (
                ProviderSigninState::FindingNewUser { provider_name, account_id },
                ProviderSigninAction::FindUserByEmail(email),
            ),
            ProviderSigninState::FindingNewUser { provider_name, account_id } => match event {
                ProviderSigninEvent::NewUserFound(Ok(user)) => {
                    let link = Provider::new_at(provider_name, account_id, user.id, now);
                    (ProviderSigninState::Linking { user }, ProviderSigninAction::CreateLink(link))
                },
                _ => (
                    ProviderSigninState::Finished,
                    ProviderSigninAction::Reply(
                        Err(app_error(ErrorKind::NotFound, "User not found")),
                    ),
                ),
            },
            ProviderSigninState::Linking { user } => match event {
                ProviderSigninEvent::Linked(Ok(_)) => (
                    ProviderSigninState::Finished,
                    ProviderSigninAction::Reply(Ok(user)),
                ),
                _ => (
                    ProviderSigninState::Finished,
                    ProviderSigninAction::Reply(
                        Err(app_error(ErrorKind::Internal, "failed to create user")),
                    ),
                ),
            },
            ProviderSigninState::Finished => {
                assert(false);
                (ProviderSigninState::Finished, ProviderSigninAction::Reply(Ok(User::default())))
            },
        }
    }
}

} // verus!
