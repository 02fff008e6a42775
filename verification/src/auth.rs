//! Which endpoints of the transport layer are served without an API key.
//! The transport itself lives outside this crate; the rule deciding what
//! is public is verified here.

use vstd::prelude::*;

use crate::text::str_eq;

verus! {

/// Paths served without authentication.
pub open spec fn spec_is_public(path: Seq<char>) -> bool {
    path == "/health"@ || path == "/api/v1/health"@ || path == "/metrics"@
}

/// The health checks and the metrics endpoint skip authentication;
/// everything else requires an API key.
pub fn is_public_endpoint(path: &str) -> (public: bool)
    ensures
        public == spec_is_public(path@),
{
    str_eq(path, "/health") || str_eq(path, "/api/v1/health") || str_eq(path, "/metrics")
}

} // verus!
