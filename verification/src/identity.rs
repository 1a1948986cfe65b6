//! The identity service (gRPC): its account record, the replies of its calls, and how
//! database errors are reported to gRPC clients.

use vstd::prelude::*;
use crate::db::DbError;
use crate::error::text;
use crate::ids::{uuid_text, uuid_to_string, MAX_UUID};
use crate::password::{bcrypt_verifies, verify_password};

verus! {

/// An account as the identity service stores it.
#[derive(Debug)]
pub struct User {
    pub id: Option<String>,
    pub name: String,
    pub email: String,
    pub password: String,
}

impl User {
    /// A new account, not yet stored (no id).
    pub fn new(name: String, email: String, password: String) -> (u: User)
        ensures
            u.id is None,
            u.name == name,
            u.email == email,
            u.password == password,
    {
        User { id: None, name, email, password }
    }
}

/// The account record exchanged over gRPC.
#[derive(Debug)]
pub struct GUser {
    pub id: String,
    pub name: String,
    pub email: String,
    pub password: String,
}

/// The status codes of gRPC that the service answers with.
#[derive(PartialEq, Eq, Structural, Clone, Copy, Debug)]
pub enum GrpcCode {
    NotFound,
    AlreadyExists,
    InvalidArgument,
    Internal,
    Unauthenticated,
}

/// A gRPC error status.
#[derive(Debug)]
pub struct GrpcStatus {
    pub code: GrpcCode,
    pub message: String,
}

fn status(code: GrpcCode, message: &str) -> (s: GrpcStatus)
    ensures
        s.code == code,
        s.message@ == message@,
{
    GrpcStatus { code, message: text(message) }
}

/// The HTTP status of a failed account lookup: 404 when there is no such account, 500
/// for any other failure.
pub fn lookup_status(e: &DbError) -> (code: u16)
    ensures
        e is RowNotFound ==> code == 404,
        !(e is RowNotFound) ==> code == 500,
{
    match e {
        DbError::RowNotFound => 404,
        _ => 500,
    }
}

/// The gRPC status of a failed write, by the kind of constraint the database refused.
pub open spec fn write_error_status(e: DbError) -> (GrpcCode, Seq<char>) {
    match e {
        DbError::Database(d) => if d.unique_violation {
            (GrpcCode::AlreadyExists, "already exists"@)
        } else if d.check_violation {
            (GrpcCode::InvalidArgument, "pre check failed"@)
        } else if d.foreign_key_violation {
            (GrpcCode::InvalidArgument, "foreign key violation"@)
        } else {
            (GrpcCode::Internal, "failed to insert"@)
        },
        _ => (GrpcCode::Internal, "failed to create user"@),
    }
}

/// Reports a failed database write as a gRPC status.
pub fn map_error(error: DbError) -> (s: GrpcStatus)
    ensures
        (s.code, s.message@) == write_error_status(error),
{
    match error {
        DbError::Database(db_err) => {
            if db_err.unique_violation {
                status(GrpcCode::AlreadyExists, "already exists")
            } else if db_err.check_violation {
                status(GrpcCode::InvalidArgument, "pre check failed")
            } else if db_err.foreign_key_violation {
                status(GrpcCode::InvalidArgument, "foreign key violation")
            } else {
                status(GrpcCode::Internal, "failed to insert")
            }
        },
        _ => status(GrpcCode::Internal, "failed to create user"),
    }
}

/// The reply of a write (create, update, delete): empty, or the status of its failure.
pub fn write_outcome(written: Result<(), DbError>) -> (r: Result<(), GrpcStatus>)
    ensures
        written is Ok ==> r is Ok,
        written matches Err(e) ==> (r matches Err(s) && (s.code, s.message@)
            == write_error_status(e)),
{
    match written {
        Ok(()) => Ok(()),
        Err(e) => Err(map_error(e)),
    }
}

/// The gRPC record of an account; an account without an id is given the max UUID.
pub fn g_user_from(user: User) -> (g: GUser)
    ensures
        user.id matches Some(id) ==> g.id@ == id@,
        user.id is None ==> g.id@ == uuid_text(MAX_UUID),
        g.name == user.name,
        g.email == user.email,
        g.password == user.password,
{
    let id = match user.id {
        Some(id) => id,
        None => uuid_to_string(MAX_UUID),
    };
    GUser { id, name: user.name, email: user.email, password: user.password }
}

/// The reply of `find_user_by_email`: the account's record, or `not found: User not found`.
pub fn find_user_by_email_reply(found: Result<User, u16>) -> (r: Result<GUser, GrpcStatus>)
    ensures
        found matches Ok(u) ==> (r matches Ok(g) && g.name == u.name && g.email == u.email
            && g.password == u.password && (u.id matches Some(id) ==> g.id@ == id@) && (u.id is None
            ==> g.id@ == uuid_text(MAX_UUID))),
        found is Err ==> (r matches Err(s) && s.code == GrpcCode::NotFound && s.message@
            == "User not found"@),
{
    match found {
        Ok(user) => Ok(g_user_from(user)),
        Err(_) => Err(status(GrpcCode::NotFound, "User not found")),
    }
}

/// The claims the identity service signs at login.
#[derive(Debug)]
pub struct LoginClaims {
    pub sub: String,
    pub exp: i64,
}

/// The expiry the identity service puts in its tokens, and tells its clients, in seconds.
pub const LOGIN_TOKEN_EXPIRY: i64 = 900;

/// A refused login.
pub open spec fn login_refused(r: Result<LoginClaims, GrpcStatus>) -> bool {
    r matches Err(s) && s.code == GrpcCode::Unauthenticated && s.message@
        == "Invalid username or password"@
}

/// The login decision from the account lookup and the password check: a missing account
/// or a hash that cannot be checked is refused; otherwise the user is issued claims.
/// The outcome of the check itself (match or not) is not looked at.
pub fn login_claims(username: String, found: Result<User, u16>, checked: Result<bool, ()>) -> (r:
    Result<LoginClaims, GrpcStatus>)
    ensures
        found is Err || checked is Err ==> login_refused(r),
        found is Ok && checked is Ok ==> (r matches Ok(c) && c.sub == username && c.exp
            == LOGIN_TOKEN_EXPIRY),
{
    if found.is_err() || checked.is_err() {
        return Err(status(GrpcCode::Unauthenticated, "Invalid username or password"));
    }
    Ok(LoginClaims { sub: username, exp: LOGIN_TOKEN_EXPIRY })
}

/// `login`: looks at the account found under the user name and checks the password with
/// bcrypt. The login is refused when no account was found or when bcrypt reports an
/// error on the stored hash; otherwise claims are issued for the user name.
pub fn login_decision(username: String, password: &str, found: Result<User, u16>) -> (r: Result<
    LoginClaims,
    GrpcStatus,
>)
    ensures
        found is Err ==> login_refused(r),
        found matches Ok(u) ==> (login_refused(r) <==> bcrypt_verifies(password@, u.password@)
            is None),
        found matches Ok(u) ==> (bcrypt_verifies(password@, u.password@) is Some ==> (r matches Ok(
            c) && c.sub == username && c.exp == LOGIN_TOKEN_EXPIRY)),
{
    match found {
        Err(code) => login_claims(username, Err(code), Ok(false)),
        Ok(user) => {
            let checked = verify_password(password, user.password.as_str());
            let outcome: Result<bool, ()> = match checked {
                Ok(b) => Ok(b),
                Err(_) => Err(()),
            };
            login_claims(username, Ok(user), outcome)
        },
    }
}

/// The reply of a login.
#[derive(Debug)]
pub struct LoginReply {
    pub access_token: String,
    pub refresh_token: String,
    pub expire_in: i32,
    pub token_type: String,
}

/// The reply of a login with its two tokens: bearer tokens, valid 900 seconds.
pub fn login_reply(access_token: String, refresh_token: String) -> (r: LoginReply)
    ensures
        r.access_token == access_token,
        r.refresh_token == refresh_token,
        r.expire_in == 900,
        r.token_type@ == "Bearer"@,
{
    LoginReply { access_token, refresh_token, expire_in: 900, token_type: text("Bearer") }
}

} // verus!

verus! {

/// An account to create through the web front.
#[derive(Debug)]
pub struct UserRequest {
    pub name: String,
    pub email: String,
    pub password: String,
}

/// An account as the web front shows it.
#[derive(Debug)]
pub struct UserResponse {
    pub id: String,
    pub name: String,
    pub email: String,
}

/// A lookup of an account by e-mail.
#[derive(Debug)]
pub struct UserQuery {
    pub email: String,
}

/// The reply of a login, as the web front forwards it.
#[derive(Debug)]
pub struct LoginResponseDto {
    pub access_token: String,
    pub refresh_token: String,
    pub expire_in: i32,
    pub token_type: String,
}

/// Login credentials.
#[derive(Debug)]
pub struct LoginRequestDto {
    pub username: String,
    pub password: String,
}

impl LoginResponseDto {
    /// The web reply of a login reply of the identity service, field by field.
    pub fn from_reply(reply: LoginReply) -> (r: LoginResponseDto)
        ensures
            r.access_token == reply.access_token,
            r.refresh_token == reply.refresh_token,
            r.expire_in == reply.expire_in,
            r.token_type == reply.token_type,
    {
        LoginResponseDto {
            access_token: reply.access_token,
            refresh_token: reply.refresh_token,
            expire_in: reply.expire_in,
            token_type: reply.token_type,
        }
    }
}

} // verus!
