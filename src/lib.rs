//! Lifecycle of a restartable health-check service, and the bookkeeping of a
//! client that probes it while it is being cycled.

pub mod driver;
pub mod manager;
pub mod probe;
