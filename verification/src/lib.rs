//! Decision logic for a small connected device that joins a wireless network,
//! synchronizes its clock, and then periodically reports its externally
//! observed IP address together with heap-usage diagnostics.
//!
//! Everything that touches hardware, the network stack, or timers lives in the
//! surrounding program; this crate holds the decisions that drive it: client
//! configuration validation, the association state machine, the time-sync
//! polling rule, the reporting-loop schedule, response handling, and the
//! whitespace trimming applied to the reported address.

pub mod config;
pub mod heap;
pub mod report;
pub mod sntp;
pub mod trim;
pub mod wifi;
