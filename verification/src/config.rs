//! Service configuration.

use vstd::prelude::*;

verus! {

/// Lifetime of an access token and of its cookie, in seconds (15 minutes).
pub const ACCESS_TOKEN_EXPIRY_SECONDS: i64 = 900;

/// Lifetime of a refresh token, of its cookie and of a session, in seconds (30 days).
pub const REFRESH_TOKEN_EXPIRY_SECONDS: i64 = 2_592_000;

/// Failed sign-ins in a row that lock an account.
pub const MAX_LOCKOUT_NUM: i32 = 10;

#[derive(Clone, Debug)]
pub struct AppConfig {
    pub database_url: String,
    pub secret_key: String,
    pub access_token_expiry: i64,
    pub refresh_token_expiry: i64,
    pub max_lockout_num: i32,
}

impl AppConfig {
    /// Whether `self` is the configuration loaded from these two settings.
    pub open spec fn loaded_from(self, database_url: Seq<char>, secret_key: Seq<char>) -> bool {
        &&& self.database_url@ == database_url
        &&& self.secret_key@ == secret_key
        &&& self.access_token_expiry == ACCESS_TOKEN_EXPIRY_SECONDS
        &&& self.refresh_token_expiry == REFRESH_TOKEN_EXPIRY_SECONDS
        &&& self.max_lockout_num == MAX_LOCKOUT_NUM
    }

    /// The configuration from the `DATABASE_URL` and `SECRET_KEY` settings, both of
    /// which must be set.
    pub fn load(database_url: Option<String>, secret_key: Option<String>) -> (config: AppConfig)
        requires
            database_url is Some,
            secret_key is Some,
        ensures
            config.loaded_from(database_url.unwrap()@, secret_key.unwrap()@),
            config.database_url == database_url.unwrap(),
            config.secret_key == secret_key.unwrap(),
    {
        let database_url = match database_url {
            Some(url) => url,
            None => {
                assert(false);
                String::new()
            },
        };
        let secret_key = match secret_key {
            Some(key) => key,
            None => {
                assert(false);
                String::new()
            },
        };
        AppConfig {
            database_url,
            secret_key,
            access_token_expiry: ACCESS_TOKEN_EXPIRY_SECONDS,
            refresh_token_expiry: REFRESH_TOKEN_EXPIRY_SECONDS,
            max_lockout_num: MAX_LOCKOUT_NUM,
        }
    }

    /// A copy of the configuration.
    pub fn duplicate(&self) -> (copy: AppConfig)
        ensures
            copy == *self,
    {
        AppConfig {
            database_url: self.database_url.clone(),
            secret_key: self.secret_key.clone(),
            access_token_expiry: self.access_token_expiry,
            refresh_token_expiry: self.refresh_token_expiry,
            max_lockout_num: self.max_lockout_num,
        }
    }
}

/// The process-wide configuration held in `cell`: loaded from the two settings on the
/// first call, and returned unchanged by every later call, whatever settings it is given.
pub fn get_or_init(
    cell: &mut Option<AppConfig>,
    database_url: Option<String>,
    secret_key: Option<String>,
) -> (config: AppConfig)
    requires
        *old(cell) is Some || (database_url is Some && secret_key is Some),
    ensures
        *final(cell) == Some(config),
        *old(cell) is Some ==> *final(cell) == *old(cell),
        *old(cell) is None ==> config.loaded_from(database_url.unwrap()@, secret_key.unwrap()@),
{
    match cell {
        Some(config) => config.duplicate(),
        None => {
            let config = AppConfig::load(database_url, secret_key);
            let copy = config.duplicate();
            *cell = Some(config);
            copy
        },
    }
}

} // verus!
