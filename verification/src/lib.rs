//! Scheduling and coordination core of an image-rotation daemon.
//!
//! The crate verifies the daemon's engine: a pausable periodic timer whose
//! accounting excludes paused time, a random selector that avoids recent
//! repeats up to a retry budget, a single-flight update lifecycle that
//! coalesces overflow requests, and the dispatcher that turns control
//! requests into state changes and responses. Transports, process spawning
//! and file I/O live outside the library and talk to it in plain values.

pub mod command;
pub mod lifecycle;
pub mod listeners;
pub mod message_api;
pub mod recency;
pub mod selector;
pub mod state;
pub mod timer;
