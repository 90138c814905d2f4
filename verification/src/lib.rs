//! A local child-process supervisor: it picks a free port from a bounded
//! range, decides how a long-running sibling service is launched on that
//! port, tracks the lifetime of at most one child, and drains the tracked
//! child when the host application shuts down.
//!
//! All decisions are made here and are verified; the host application
//! performs the actual operating-system work (bind probes, filesystem
//! checks, spawning, killing) and reports each outcome back as an event.

pub mod command;
pub mod errors;
pub mod laws;
pub mod paths;
pub mod ports;
pub mod supervisor;
