//! Failover rules of a reverse proxy: which responses send a request on to the next upstream,
//! how often a request may be retried, and when observations make an upstream unhealthy.
pub mod context;
pub mod decimal;
pub mod failover;
pub mod globals;
pub mod health_check;
pub mod sets;
