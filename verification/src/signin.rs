//! Password sign-in: the lockout rules and the state machine that drives a sign-in.
//!
//! A sign-in looks the account up by e-mail, refuses it while it is locked, checks the
//! password against the stored hash, and on a wrong password records the failed attempt:
//! the failure count restarts when the previous failure is more than a minute old, and
//! when the count reaches the configured limit the account is locked for a minute and
//! the count restarts from zero. The application performs each action (database access,
//! hashing on a worker thread) and hands the outcome back as the next event.

use vstd::prelude::*;
use crate::db::DbError;
use crate::entities::User;
use crate::error::{app_error, error_with, message_error, AppError, ErrorDetail, ErrorKind};
use crate::password::bcrypt_verifies;
use crate::time::{add_seconds, after_seconds, representable, MICROS_PER_SECOND};

verus! {

/// Length of a lockout, in seconds (one minute).
pub const LOCKOUT_SECONDS: i64 = 60;

/// A failure older than this many seconds no longer counts towards a lockout.
pub const FAILURE_WINDOW_SECONDS: i64 = 60;

/// Whether the account is locked at instant `now`.
pub open spec fn is_locked(user: User, now: int) -> bool {
    user.lockout_end matches Some(end) && end > now
}

/// The failures that still count at `now`, before the new one is added.
pub open spec fn counted_failures(user: User, now: int) -> int {
    match user.last_failed_attempted {
        Some(last) => if now - last > FAILURE_WINDOW_SECONDS * MICROS_PER_SECOND {
            0
        } else {
            user.failed_login_count as int
        },
        None => user.failed_login_count as int,
    }
}

/// Whether a failed attempt at `now` reaches the lockout limit `max_lockout`.
pub open spec fn lockout_reached(user: User, now: int, max_lockout: int) -> bool {
    counted_failures(user, now) + 1 == max_lockout
}

/// The account after a failed attempt at `now`.
pub open spec fn after_failed_attempt(user: User, now: int, max_lockout: int) -> User {
    if lockout_reached(user, now, max_lockout) {
        User {
            failed_login_count: 0,
            lockout_end: Some(after_seconds(now, LOCKOUT_SECONDS as int) as i64),
            ..user
        }
    } else {
        User { failed_login_count: (counted_failures(user, now) + 1) as i32, ..user }
    }
}

/// What recording a failed attempt needs: the count fits, and a lockout that starts
/// ends at an instant a date-time can hold.
pub open spec fn failure_recordable(user: User, now: int, max_lockout: int) -> bool {
    &&& representable(now)
    &&& counted_failures(user, now) < i32::MAX
    &&& lockout_reached(user, now, max_lockout) ==> representable(
        after_seconds(now, LOCKOUT_SECONDS as int),
    )
}

/// Records a failed attempt at `now` on the account.
pub fn record_failed_attempt(user: User, now: i64, max_lockout: i32) -> (updated: User)
    requires
        failure_recordable(user, now as int, max_lockout as int),
    ensures
        updated == after_failed_attempt(user, now as int, max_lockout as int),
{
    let mut user = user;
    if let Some(last) = user.last_failed_attempted {
        let since: i128 = (now as i128) - (last as i128);
        if since > (FAILURE_WINDOW_SECONDS as i128) * (MICROS_PER_SECOND as i128) {
            user.failed_login_count = 0;
        }
    }
    user.failed_login_count = user.failed_login_count + 1;
    if user.failed_login_count == max_lockout {
        user.lockout_end = Some(add_seconds(now, LOCKOUT_SECONDS));
        user.failed_login_count = 0;
    }
    user
}

/// Why a sign-in was refused.
#[derive(Debug)]
pub enum SigninRefusal {
    /// The account is locked for `remaining_micros` more microseconds.
    Locked { remaining_micros: i128 },
    /// Any other refusal, answered with this error.
    Rejected(AppError),
}

impl SigninRefusal {
    /// The error that answers the refusal: a locked account is answered `403 Forbidden`
    /// with `locked_message` (which tells the time left); any other refusal with its own
    /// error.
    pub fn into_app_error(self, locked_message: String) -> (e: AppError)
        ensures
            self is Locked ==> e@ == message_error(ErrorKind::Forbidden, locked_message@),
            self matches SigninRefusal::Rejected(err) ==> e == err,
    {
        match self {
            SigninRefusal::Locked { .. } => error_with(
                ErrorKind::Forbidden,
                ErrorDetail::Message(locked_message),
            ),
            SigninRefusal::Rejected(err) => err,
        }
    }
}

/// Where a sign-in stands.
#[derive(Debug)]
pub enum SigninState {
    /// The account is being looked up; `password` is the one given.
    LookingUp { password: String },
    /// The password is being checked against the account's hash.
    Verifying { user: User },
    /// The failed attempt is being written back.
    Recording,
    /// The reply has been given.
    Finished,
}

/// The outcome of the last action, handed back by the application.
#[derive(Debug)]
pub enum SigninEvent {
    UserFound(Result<User, DbError>),
    /// `Err` when hashing failed or its worker could not be joined.
    PasswordChecked(Result<bool, ()>),
    AttemptRecorded(Result<(), DbError>),
}

/// What the application does next.
#[derive(Debug)]
pub enum SigninAction {
    LookUpUser { email: String },
    VerifyPassword { password: String, hash: String },
    SaveUser(User),
    Reply(Result<User, SigninRefusal>),
}

/// Whether `action` replies with the error `kind`/`message`.
pub open spec fn rejects_with(action: SigninAction, kind: ErrorKind, message: Seq<char>) -> bool {
    action matches SigninAction::Reply(Err(SigninRefusal::Rejected(e))) && e@ == message_error(
        kind,
        message,
    )
}

/// One step of a sign-in: from `state` and the outcome `event`, at instant `now`, with
/// lockout limit `max_lockout`, to the next state and action.
pub open spec fn signin_step_spec(
    state: SigninState,
    event: SigninEvent,
    now: int,
    max_lockout: int,
    next: SigninState,
    action: SigninAction,
) -> bool {
    match state {
        SigninState::LookingUp { password } => match event {
            SigninEvent::UserFound(Err(_)) => next is Finished && rejects_with(
                action,
                ErrorKind::Unauthorized,
                "invalid credentials"@,
            ),
            SigninEvent::UserFound(Ok(user)) => if is_locked(user, now) {
                &&& next is Finished
                &&& action == SigninAction::Reply(
                    Err(
                        SigninRefusal::Locked {
                            remaining_micros: (user.lockout_end.unwrap() - now) as i128,
                        },
                    ),
                )
            } else if user.password is None {
                next is Finished && rejects_with(action, ErrorKind::Unauthorized, "invalid credentials"@)
            } else {
                &&& next == SigninState::Verifying { user }
                &&& action == SigninAction::VerifyPassword {
                    password,
                    hash: user.password.unwrap(),
                }
            },
            _ => false,
        },
        SigninState::Verifying { user } => match event {
            SigninEvent::PasswordChecked(Err(_)) => next is Finished && rejects_with(
                action,
                ErrorKind::Unauthorized,
                "invalid credentials"@,
            ),
            SigninEvent::PasswordChecked(Ok(true)) => next is Finished && action
                == SigninAction::Reply(Ok(user)),
            SigninEvent::PasswordChecked(Ok(false)) => next is Recording && action
                == SigninAction::SaveUser(after_failed_attempt(user, now, max_lockout)),
            _ => false,
        },
        SigninState::Recording => match event {
            SigninEvent::AttemptRecorded(Err(_)) => next is Finished && rejects_with(
                action,
                ErrorKind::Internal,
                "failed to signin"@,
            ),
            SigninEvent::AttemptRecorded(Ok(())) => next is Finished && rejects_with(
                action,
                ErrorKind::Unauthorized,
                "invalid credentials"@,
            ),
            _ => false,
        },
        SigninState::Finished => false,
    }
}

/// The account after a run of failed attempts at the instants `nows`, in order.
pub open spec fn after_failed_attempts(user: User, nows: Seq<int>, max_lockout: int) -> User
    decreases nows.len(),
{
    if nows.len() == 0 {
        user
    } else {
        after_failed_attempt(
            after_failed_attempts(user, nows.drop_last(), max_lockout),
            nows.last(),
            max_lockout,
        )
    }
}

/// A failed attempt keeps the failure count between zero and the lockout limit: if it
/// was in `0..max_lockout` before, it still is after.
pub proof fn lemma_failure_count_stays_below_limit(user: User, now: int, max_lockout: int)
    requires
        1 <= max_lockout <= i32::MAX,
        0 <= user.failed_login_count < max_lockout,
    ensures
        0 <= after_failed_attempt(user, now, max_lockout).failed_login_count < max_lockout,
{
}

/// A failed attempt changes only the failure count and the lockout: the account is
/// locked for one minute from `now`, and the count restarts, exactly when the attempt
/// reaches the limit; otherwise the lockout is left as it was and the count grows by one
/// (after restarting from zero when the previous failure is more than a minute old).
pub proof fn lemma_lockout_exactly_at_limit(user: User, now: int, max_lockout: int)
    requires
        failure_recordable(user, now, max_lockout),
    ensures
        ({
            let after = after_failed_attempt(user, now, max_lockout);
            &&& after.lockout_end == if lockout_reached(user, now, max_lockout) {
                Some(after_seconds(now, LOCKOUT_SECONDS as int) as i64)
            } else {
                user.lockout_end
            }
            &&& after.failed_login_count == if lockout_reached(user, now, max_lockout) {
                0
            } else {
                counted_failures(user, now) + 1
            }
            &&& after.id == user.id && after.email == user.email && after.password
                == user.password && after.role == user.role
            &&& after.last_failed_attempted == user.last_failed_attempted
        }),
{
}

/// `max_lockout` failed attempts in a row on an account with no failure recorded lock
/// it: after the last one the account is locked until one minute after that attempt,
/// and its failure count is back at zero. Before that, no lockout is set.
pub proof fn lemma_consecutive_failures_lock(user: User, nows: Seq<int>, max_lockout: int)
    requires
        1 <= max_lockout <= i32::MAX,
        user.failed_login_count == 0,
        user.last_failed_attempted is None,
        nows.len() == max_lockout,
        forall|i: int| 0 <= i < nows.len() ==> representable(#[trigger] nows[i]) && representable(
            after_seconds(nows[i], LOCKOUT_SECONDS as int),
        ),
    ensures
        after_failed_attempts(user, nows, max_lockout).lockout_end == Some(
            after_seconds(nows.last(), LOCKOUT_SECONDS as int) as i64,
        ),
        after_failed_attempts(user, nows, max_lockout).failed_login_count == 0,
        forall|k: int|
            0 <= k < max_lockout ==> (#[trigger] after_failed_attempts(
                user,
                nows.take(k),
                max_lockout,
            )).lockout_end == user.lockout_end,
{
    assert forall|k: int| 0 <= k < max_lockout implies {
        let a = #[trigger] after_failed_attempts(user, nows.take(k), max_lockout);
        &&& a.failed_login_count == k
        &&& a.lockout_end == user.lockout_end
        &&& a.last_failed_attempted is None
    } by {
        lemma_run_before_limit(user, nows, max_lockout, k);
    }
    let before = nows.take(max_lockout - 1);
    assert(nows.drop_last() =~= before);
    lemma_run_before_limit(user, nows, max_lockout, max_lockout - 1);
}

proof fn lemma_run_before_limit(user: User, nows: Seq<int>, max_lockout: int, k: int)
    requires
        1 <= max_lockout <= i32::MAX,
        user.failed_login_count == 0,
        user.last_failed_attempted is None,
        nows.len() == max_lockout,
        0 <= k < max_lockout,
    ensures
        ({
            let a = after_failed_attempts(user, nows.take(k), max_lockout);
            &&& a.failed_login_count == k
            &&& a.lockout_end == user.lockout_end
            &&& a.last_failed_attempted is None
        }),
    decreases k,
{
    if k > 0 {
        lemma_run_before_limit(user, nows, max_lockout, k - 1);
        assert(nows.take(k).drop_last() =~= nows.take(k - 1));
        let prev = after_failed_attempts(user, nows.take(k - 1), max_lockout);
        assert(counted_failures(prev, nows.take(k).last()) == k - 1);
        assert(!lockout_reached(prev, nows.take(k).last(), max_lockout));
        assert(after_failed_attempts(user, nows.take(k), max_lockout) == after_failed_attempt(
            prev,
            nows.take(k).last(),
            max_lockout,
        ));
    } else {
        assert(nows.take(0).len() == 0);
    }
}

/// A locked account is refused without its password being checked: the reply gives the
/// time left until the lockout ends.
pub proof fn lemma_locked_account_refused(
    password: String,
    user: User,
    now: int,
    max_lockout: int,
    next: SigninState,
    action: SigninAction,
)
    requires
        representable(now),
        is_locked(user, now),
        signin_step_spec(
            SigninState::LookingUp { password },
            SigninEvent::UserFound(Ok(user)),
            now,
            max_lockout,
            next,
            action,
        ),
    ensures
        next is Finished,
        action matches SigninAction::Reply(Err(SigninRefusal::Locked { remaining_micros }))
            && remaining_micros > 0 && remaining_micros == user.lockout_end.unwrap() - now,
{
}

/// A password that checks out signs the account in as it was found, unchanged; a wrong
/// one never does.
pub proof fn lemma_sign_in_only_with_right_password(
    user: User,
    checked: bool,
    now: int,
    max_lockout: int,
    next: SigninState,
    action: SigninAction,
)
    requires
        signin_step_spec(
            SigninState::Verifying { user },
            SigninEvent::PasswordChecked(Ok(checked)),
            now,
            max_lockout,
            next,
            action,
        ),
    ensures
        checked ==> action == SigninAction::Reply(Ok(user)),
        !checked ==> !(action is Reply) && next is Recording,
{
}

/// An account whose stored hash is one that the password checks out against (as the
/// hash that `hash_password` makes of it at sign-up is) signs in with that password when
/// it is not locked: its lookup leads to checking exactly that password against exactly
/// that hash, and the successful check to the account being signed in as found.
pub proof fn lemma_stored_password_signs_in(
    password: String,
    user: User,
    now: int,
    max_lockout: int,
    checking: SigninState,
    check: SigninAction,
    done: SigninState,
    reply: SigninAction,
)
    requires
        user.password matches Some(hash) && bcrypt_verifies(password@, hash@) == Some(true),
        !is_locked(user, now),
        signin_step_spec(
            SigninState::LookingUp { password },
            SigninEvent::UserFound(Ok(user)),
            now,
            max_lockout,
            checking,
            check,
        ),
        signin_step_spec(checking, SigninEvent::PasswordChecked(Ok(true)), now, max_lockout, done, reply),
    ensures
        check matches SigninAction::VerifyPassword { password: p, hash: h } && p == password && Some(h)
            == user.password && bcrypt_verifies(p@, h@) == Some(true),
        done is Finished,
        reply == SigninAction::Reply(Ok(user)),
{
}

/// An account without a password (one made by a provider sign-in) that is not locked is
/// refused as `401 invalid credentials`, without any password being checked.
pub proof fn lemma_passwordless_account_refused(
    password: String,
    user: User,
    now: int,
    max_lockout: int,
    next: SigninState,
    action: SigninAction,
)
    requires
        user.password is None,
        !is_locked(user, now),
        signin_step_spec(
            SigninState::LookingUp { password },
            SigninEvent::UserFound(Ok(user)),
            now,
            max_lockout,
            next,
            action,
        ),
    ensures
        next is Finished,
        rejects_with(action, ErrorKind::Unauthorized, "invalid credentials"@),
{
}

impl SigninState {
    /// Whether the state waits for this kind of event.
    pub open spec fn accepts(self, event: SigninEvent) -> bool {
        match self {
            SigninState::LookingUp { .. } => event is UserFound,
            SigninState::Verifying { .. } => event is PasswordChecked,
            SigninState::Recording => event is AttemptRecorded,
            SigninState::Finished => false,
        }
    }

    /// What a step needs besides a matching event: a representable `now` and, on a wrong
    /// password, a failure that can be recorded.
    pub open spec fn step_allowed(self, event: SigninEvent, now: int, max_lockout: int) -> bool {
        &&& self.accepts(event)
        &&& representable(now)
        &&& (self matches SigninState::Verifying { user } ==> (event
            == SigninEvent::PasswordChecked(Ok(false)) ==> failure_recordable(
            user,
            now,
            max_lockout,
        )))
    }

    /// Begins a sign-in with the given credentials: the account is looked up by e-mail.
    pub fn start(email: String, password: String) -> (r: (SigninState, SigninAction))
        ensures
            r.0 == (SigninState::LookingUp { password }),
            r.1 == (SigninAction::LookUpUser { email }),
    {
        (SigninState::LookingUp { password }, SigninAction::LookUpUser { email })
    }

    /// Takes the outcome of the last action and decides the next one.
    pub fn step(self, event: SigninEvent, now: i64, max_lockout: i32) -> (r: (
        SigninState,
        SigninAction,
    ))
        requires
            self.step_allowed(event, now as int, max_lockout as int),
        ensures
            signin_step_spec(self, event, now as int, max_lockout as int, r.0, r.1),
    {
        match self {
            SigninState::LookingUp { password } => match event {
                SigninEvent::UserFound(Ok(user)) => {
                    if let Some(end) = user.lockout_end {
                        if end > now {
                            let remaining_micros: i128 = (end as i128) - (now as i128);
                            return (
                                SigninState::Finished,
                                SigninAction::Reply(
                                    Err(SigninRefusal::Locked { remaining_micros }),
                                ),
                            );
                        }
                    }
                    let hash = match &user.password {
                        Some(h) => h.clone(),
                        None => {
                            return (
                                SigninState::Finished,
                                SigninAction::Reply(
                                    Err(
                                        SigninRefusal::Rejected(
                                            app_error(ErrorKind::Unauthorized, "invalid credentials"),
                                        ),
                                    ),
                                ),
                            );
                        },
                    };
                    (SigninState::Verifying { user }, SigninAction::VerifyPassword { password, hash })
                },
                _ => (
                    SigninState::Finished,
                    SigninAction::Reply(
                        Err(
                            SigninRefusal::Rejected(
                                app_error(ErrorKind::Unauthorized, "invalid credentials"),
                            ),
                        ),
                    ),
                ),
            },
            SigninState::Verifying { user } => match event {
                SigninEvent::PasswordChecked(Ok(true)) => (
                    SigninState::Finished,
                    SigninAction::Reply(Ok(user)),
                ),
                SigninEvent::PasswordChecked(Ok(false)) => (
                    SigninState::Recording,
                    SigninAction::SaveUser(record_failed_attempt(user, now, max_lockout)),
                ),
                _ => (
                    SigninState::Finished,
                    SigninAction::Reply(
                        Err(
                            SigninRefusal::Rejected(
                                app_error(ErrorKind::Unauthorized, "invalid credentials"),
                            ),
                        ),
                    ),
                ),
            },
            SigninState::Recording => match event {
                SigninEvent::AttemptRecorded(Ok(())) => (
                    SigninState::Finished,
                    SigninAction::Reply(
                        Err(
                            SigninRefusal::Rejected(
                                app_error(ErrorKind::Unauthorized, "invalid credentials"),
                            ),
                        ),
                    ),
                ),
                _ => (
                    SigninState::Finished,
                    SigninAction::Reply(
                        Err(
                            SigninRefusal::Rejected(
                                app_error(ErrorKind::Internal, "failed to signin"),
                            ),
                        ),
                    ),
                ),
            },
            SigninState::Finished => {
                assert(false);
                (SigninState::Finished, SigninAction::Reply(Ok(User::default())))
            },
        }
    }
}

} // verus!
