//! Sidecar supervisor: the lifecycle logic for one owned backend child
//! process — port selection, launch argument shape, output relay,
//! readiness polling and shutdown — stated in contracts and verified.
//!
//! The surrounding host performs the actual I/O (binding probe sockets,
//! spawning the child, HTTP requests, timers) and feeds the outcomes to
//! these functions as plain values.

pub mod decimal;
pub mod launch;
pub mod ports;
pub mod probe;
pub mod relay;
pub mod scan;
pub mod supervisor;
