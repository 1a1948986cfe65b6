//! Cookies that carry tokens to the browser.

use vstd::prelude::*;
use crate::error::text;

verus! {

/// A cookie to set on the reply.
#[derive(Debug)]
pub struct Cookie {
    pub name: String,
    pub value: String,
    pub path: String,
    pub http_only: bool,
    pub secure: bool,
    /// Lifetime in seconds.
    pub max_age: i64,
}

/// A cookie for the whole site (`/`), hidden from scripts, sent over HTTPS only, that
/// lives `max_age` seconds.
pub fn set_cookie(name: String, value: String, max_age: i64) -> (c: Cookie)
    ensures
        c.name == name,
        c.value == value,
        c.path@ == "/"@,
        c.http_only,
        c.secure,
        c.max_age == max_age,
{
    Cookie { name, value, path: text("/"), http_only: true, secure: true, max_age }
}

} // verus!
