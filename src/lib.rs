//! Throughput measurement engine: endpoint fallback, time-boxed transfers,
//! rate sampling and adaptive request sizing, written as verified state
//! machines that a runtime drives with network results and clock readings.

pub mod chain;
pub mod download;
pub mod endpoints;
pub mod event;
pub mod limits;
pub mod rate;
pub mod upload;
