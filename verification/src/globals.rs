//! Route options as they stand in the configuration, before any default is applied.
use vstd::prelude::*;

verus! {

/// The passive health section of a route.
#[derive(Debug, Clone)]
pub struct PassiveHealthRoute {
    /// Status codes that count as health failures, where the section lists any.
    pub unhealthy_statuses: Option<Vec<u16>>,
    /// Whether a connection error counts as a health failure, where the section says so.
    pub on_connection_failure: Option<bool>,
}

/// The application-level fallback section of a route.
#[derive(Debug, Clone)]
pub struct AppFallbackRoute {
    /// Status codes that send a request on to the next upstream.
    pub fallback_on_statuses: Vec<u16>,
}

} // verus!
