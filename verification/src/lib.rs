//! Network simulation core for a discrete-event cloud-infrastructure
//! simulator: message passing and bulk data transfer between simulated
//! actors, with pluggable latency and bandwidth-sharing semantics.

pub mod context;
pub mod event;
pub mod model;
pub mod network_actor;
