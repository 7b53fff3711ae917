//! Assignment of pending payouts to eligible workers: a round-robin policy
//! under per-worker capacity limits, race-free claim rules, cancellation,
//! merchant callback dispatch with an audit trail, and the decisions of the
//! reconfigurable distribution scheduler.

pub mod events;
pub mod text;
pub mod json;
pub mod status;
pub mod claim;
pub mod registry;
pub mod cancel;
pub mod callback;
pub mod scheduler;
pub mod listing;
pub mod policy;
pub mod fairness;

pub use events::ServerEvent;
