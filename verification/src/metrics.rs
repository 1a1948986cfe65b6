//! What a served request adds to the request metrics.

use vstd::prelude::*;
use crate::error::text;

verus! {

/// The decimal digit character of a digit below 10.
pub open spec fn digit_char(d: nat) -> char {
    (('0' as nat) + d) as char
}

/// The decimal text of a natural number, without leading zeros.
pub open spec fn decimal(n: nat) -> Seq<char>
    decreases n,
{
    if n < 10 {
        seq![digit_char(n)]
    } else {
        decimal(n / 10).push(digit_char(n % 10))
    }
}

/// `String::push`: appends a character.
#[verifier::external_body]
fn push_char(s: &mut String, c: char)
    ensures
        final(s)@ == old(s)@.push(c),
{
    s.push(c)
}

fn digit(d: u16) -> (c: char)
    requires
        d < 10,
    ensures
        c == digit_char(d as nat),
{
    match d {
        0 => '0',
        1 => '1',
        2 => '2',
        3 => '3',
        4 => '4',
        5 => '5',
        6 => '6',
        7 => '7',
        8 => '8',
        _ => '9',
    }
}

/// The decimal text of a status code.
pub fn status_text(n: u16) -> (s: String)
    ensures
        s@ == decimal(n as nat),
    decreases n,
{
    if n < 10 {
        let mut s = String::new();
        push_char(&mut s, digit(n));
        s
    } else {
        let mut s = status_text(n / 10);
        push_char(&mut s, digit(n % 10));
        s
    }
}

/// The counters a served request adds to: the request counter under the labels method,
/// route and status, and, for a server error (status 500 and above), the error counter
/// under method and route.
#[derive(Debug)]
pub struct RequestRecord {
    pub method: String,
    pub route: String,
    pub status: String,
    pub counts_as_error: bool,
}

/// What a request with this method, route and reply status adds to the metrics.
pub fn record_request(method: &str, route: &str, status: u16) -> (r: RequestRecord)
    ensures
        r.method@ == method@,
        r.route@ == route@,
        r.status@ == decimal(status as nat),
        r.counts_as_error == (status >= 500),
{
    RequestRecord {
        method: text(method),
        route: text(route),
        status: status_text(status),
        counts_as_error: status >= 500,
    }
}

} // verus!
