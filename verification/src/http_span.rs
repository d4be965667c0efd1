//! Which requests get a root tracing span.
use vstd::prelude::*;

use crate::routes::HEALTH_CHECK_PATH;
use crate::text::same_text;

verus! {

/// Root span builder for the HTTP layer: every request gets a standard
/// "HTTP request" root span (method, route, status code), so handler and
/// storage spans nest under it instead of the auth middleware span acting
/// as the trace root.
pub struct DecayRootSpanBuilder;

impl DecayRootSpanBuilder {
    /// Whether a request on `path` gets the root span. Health checks are
    /// exempt: orchestrators probe them every few seconds and their spans
    /// would drown out real traffic in the tracing backend.
    pub fn starts_root_span(path: &str) -> (r: bool)
        ensures
            r == (path@ != HEALTH_CHECK_PATH@),
    {
        !same_text(path, HEALTH_CHECK_PATH)
    }
}

} // verus!
