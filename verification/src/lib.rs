//! Sampling of host CPU and memory statistics for a desktop monitor.
//!
//! Everything here works on integers: utilization is held in millionths of a
//! percent, memory in bytes, so that every result is exact and every contract
//! can be checked.

pub mod identity;
pub mod memory;
pub mod provider;
pub mod reading;
pub mod snapshot;
pub mod usage;
