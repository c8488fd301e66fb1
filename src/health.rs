//! The health report.

use vstd::prelude::*;

use crate::types::{Capabilities, HealthResponse};

verus! {

/// First Windows build that has the pseudo-console facility (Windows 10, 1809).
pub const CONPTY_MIN_BUILD: u32 = 17763;

/// Whether a host with this Windows build number has the pseudo-console
/// facility; a host that is not Windows passes 0.
pub fn probe_conpty(windows_build: u32) -> (r: bool)
    ensures
        r == (windows_build >= CONPTY_MIN_BUILD),
{
    windows_build >= CONPTY_MIN_BUILD
}

/// The health report: status "ok", the given version, execution always
/// available, and sessions available exactly when the pseudo-console is.
pub fn health_response(conpty_available: bool, version: &str) -> (r: HealthResponse)
    ensures
        r.status@ == "ok"@,
        r.version@ == version@,
        r.capabilities == (Capabilities { conpty: conpty_available, automation: true, terminal: conpty_available }),
{
    HealthResponse {
        status: String::from_str("ok"),
        version: String::from_str(version),
        capabilities: Capabilities { conpty: conpty_available, automation: true, terminal: conpty_available },
    }
}

} // verus!
