//! Health of a single upstream, as seen by probes and by real traffic.
pub mod counter;
pub mod health;
