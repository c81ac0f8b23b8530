//! Control of systemd units over the system message bus.
//!
//! The library decides what is done on the bus and in which order, and says
//! what comes of it; it makes no call on the bus itself. An `Operation`
//! takes a `Request`, hands out one `Action` at a time, and is told by an
//! `Event` what came of each. Whoever drives it performs the actions.

pub mod error;
pub mod model;
pub mod operation;
pub mod protocol;
pub mod runs;
pub mod unit_path;
