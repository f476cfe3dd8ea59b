//! A task dispatcher for a simulated worker pool: tasks arrive over time, wait
//! in queues, are handed to idle workers under a global CPU cap, and the run is
//! summarised from the completed tasks and the monitor's samples.
//!
//! The library holds the decisions; threads, channels, clocks and printing are
//! left to the caller, which feeds events in and carries out what comes back.

pub mod task;
pub mod metrics;
pub mod scheduler;
pub mod generator;
pub mod summary;
pub mod laws;
