//! Who a request is from, and what role it must hold.

use vstd::prelude::*;
use core::marker::PhantomData;
use crate::error::{app_error, message_error, AppError, ErrorKind};
use crate::jwt::AccessClaims;
use crate::token::TokenError;

verus! {

/// The user a request's access token was issued to.
#[derive(Debug)]
pub struct AuthorizedUser {
    pub id: u128,
    pub email: String,
    pub role: String,
    /// The session the token belongs to.
    pub jti: u128,
}

impl From<AccessClaims> for AuthorizedUser {
    fn from(claims: AccessClaims) -> (u: Self) {
        AuthorizedUser { id: claims.sub, email: claims.email, role: claims.role, jti: claims.jti }
    }
}

impl vstd::std_specs::convert::FromSpecImpl<AccessClaims> for AuthorizedUser {
    open spec fn obeys_from_spec() -> bool {
        true
    }

    open spec fn from_spec(claims: AccessClaims) -> Self {
        AuthorizedUser { id: claims.sub, email: claims.email, role: claims.role, jti: claims.jti }
    }
}

impl AuthorizedUser {
    /// Whether the user holds exactly the role `role`.
    pub fn has_role(&self, role: &str) -> (r: bool)
        ensures
            r == (self.role@ == role@),
    {
        self.role == role.to_owned()
    }

    /// Whether the user holds one of the roles `roles`.
    pub fn has_any_role(&self, roles: &[&str]) -> (r: bool)
        ensures
            r == exists|i: int| 0 <= i < roles@.len() && self.role@ == #[trigger] roles@[i]@,
    {
        let mut i: usize = 0;
        while i < roles.len()
            invariant
                i <= roles@.len(),
                forall|j: int| 0 <= j < i ==> self.role@ != #[trigger] roles@[j]@,
            decreases roles@.len() - i,
        {
            if self.has_role(roles[i]) {
                return true;
            }
            i = i + 1;
        }
        false
    }

    /// The user of a request from the check of its bearer token (`Err` also when the
    /// request carries none): a refused token is answered `401 Access denied`.
    pub fn from_token_check(check: Result<AccessClaims, TokenError>) -> (r: Result<
        AuthorizedUser,
        AppError,
    >)
        ensures
            check matches Ok(c) ==> r == Ok::<AuthorizedUser, AppError>(
                AuthorizedUser { id: c.sub, email: c.email, role: c.role, jti: c.jti },
            ),
            check is Err ==> (r matches Err(e) && e@ == message_error(
                ErrorKind::Unauthorized,
                "Access denied"@,
            )),
    {
        match check {
            Ok(claims) => Ok(AuthorizedUser::from(claims)),
            Err(_) => Err(app_error(ErrorKind::Unauthorized, "Access denied")),
        }
    }
}

/// The user of a request, where it has one.
#[derive(Debug)]
pub struct OptionalAuthUser(pub Option<AuthorizedUser>);

impl OptionalAuthUser {
    /// The user of a request if it authenticated, and no user otherwise; never a refusal.
    pub fn from_auth(auth: Result<AuthorizedUser, AppError>) -> (r: OptionalAuthUser)
        ensures
            auth matches Ok(u) ==> r.0 == Some(u),
            auth is Err ==> r.0 is None,
    {
        match auth {
            Ok(user) => OptionalAuthUser(Some(user)),
            Err(_) => OptionalAuthUser(None),
        }
    }
}

/// A role that a route can demand.
pub trait Role {
    /// The role's name as stored on accounts.
    spec fn role_name() -> Seq<char>;

    fn role() -> (r: &'static str)
        ensures
            r@ == Self::role_name(),
    ;
}

/// The role of ordinary accounts.
#[derive(Debug)]
pub struct AppUser;

impl Role for AppUser {
    open spec fn role_name() -> Seq<char> {
        "user"@
    }

    fn role() -> (r: &'static str) {
        "user"
    }
}

/// The role of administrators.
#[derive(Debug)]
pub struct Admin;

impl Role for Admin {
    open spec fn role_name() -> Seq<char> {
        "admin"@
    }

    fn role() -> (r: &'static str) {
        "admin"
    }
}

/// The role of moderators.
#[derive(Debug)]
pub struct Moderator;

impl Role for Moderator {
    open spec fn role_name() -> Seq<char> {
        "moderator"@
    }

    fn role() -> (r: &'static str) {
        "moderator"
    }
}

/// An authenticated user who holds the role `R`.
pub struct RequireRole<R: Role>(pub AuthorizedUser, pub PhantomData<R>);

impl<R: Role> RequireRole<R> {
    /// Admits an authenticated user who holds exactly the role `R`; anyone else is
    /// answered `403 Forbidden`.
    pub fn check(user: AuthorizedUser) -> (r: Result<RequireRole<R>, AppError>)
        ensures
            user.role@ == R::role_name() ==> (r matches Ok(g) && g.0 == user),
            user.role@ != R::role_name() ==> (r matches Err(e) && e@ == message_error(
                ErrorKind::Forbidden,
                "Forbidden"@,
            )),
    {
        if !user.has_role(R::role()) {
            return Err(app_error(ErrorKind::Forbidden, "Forbidden"));
        }
        Ok(RequireRole(user, PhantomData))
    }

    /// The guard of a route: an unauthenticated request keeps its refusal, and an
    /// authenticated one must hold the role `R`.
    pub fn from_auth(auth: Result<AuthorizedUser, AppError>) -> (r: Result<
        RequireRole<R>,
        AppError,
    >)
        ensures
            auth matches Err(e) ==> r == Err::<RequireRole<R>, AppError>(e),
            auth matches Ok(u) ==> (u.role@ == R::role_name() ==> (r matches Ok(g) && g.0 == u)),
            auth matches Ok(u) ==> (u.role@ != R::role_name() ==> (r matches Err(e) && e@
                == message_error(ErrorKind::Forbidden, "Forbidden"@))),
    {
        match auth {
            Ok(user) => RequireRole::<R>::check(user),
            Err(e) => Err(e),
        }
    }
}

/// A route guarded by role `R` admits exactly the authenticated users whose role is
/// `R`'s: with one role asked, `has_any_role` and `has_role` agree.
pub proof fn lemma_single_role(user: AuthorizedUser, role: &str, roles: Seq<&str>)
    requires
        roles.len() == 1,
        roles[0] == role,
    ensures
        (exists|i: int| 0 <= i < roles.len() && user.role@ == #[trigger] roles[i]@) <==> (
        user.role@ == role@),
{
    if user.role@ == role@ {
        assert(user.role@ == roles[0]@);
    }
}

} // verus!
