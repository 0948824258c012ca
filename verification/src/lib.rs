//! Inventory of access-token lifetimes on a source-hosting platform,
//! republished as monitoring metrics.
//!
//! The crate holds the verified core of the exporter: the paginated fetch
//! protocol, the group hierarchy resolver with its shared cache, the
//! per-pipeline rendering and aggregation rules, and the state actor that
//! serves the last known snapshot.  All network, clock and mailbox plumbing
//! lives outside, and feeds this core plain values.

pub mod date;
pub mod error;
pub mod gitlab;
pub mod orchestrator;
pub mod prometheus_metrics;
pub mod state_actor;
pub mod text;

pub use error::Error;
