//! Liveness and readiness probes.

use vstd::prelude::*;
use crate::error::text;

verus! {

/// The result of one dependency check.
#[derive(Debug)]
pub struct CheckResult {
    pub name: String,
    pub status: String,
    pub message: Option<String>,
}

/// The body of the readiness reply.
#[derive(Debug)]
pub struct HealthResponse {
    pub status: String,
    pub checks: Vec<CheckResult>,
}

/// The liveness probe: the process answers.
pub fn liveness() -> (r: &'static str)
    ensures
        r@ == "Healthy"@,
{
    "Healthy"
}

/// The status and body of a readiness reply from its dependency checks: healthy (200)
/// when every check passed, unhealthy (503) otherwise.
pub fn readiness_from(checks: Vec<CheckResult>, all_healthy: bool) -> (r: (u16, HealthResponse))
    ensures
        all_healthy ==> r.0 == 200 && r.1.status@ == "healthy"@,
        !all_healthy ==> r.0 == 503 && r.1.status@ == "unhealthy"@,
        r.1.checks == checks,
{
    let status = if all_healthy {
        text("healthy")
    } else {
        text("unhealthy")
    };
    let code: u16 = if all_healthy {
        200
    } else {
        503
    };
    (code, HealthResponse { status, checks })
}

/// The readiness probe: no dependency is checked, so the service reports itself healthy.
pub fn readiness() -> (r: (u16, HealthResponse))
    ensures
        r.0 == 200,
        r.1.status@ == "healthy"@,
        r.1.checks@.len() == 0,
{
    readiness_from(Vec::new(), true)
}

} // verus!
