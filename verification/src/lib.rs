//! Control logic of a filesystem watcher that runs a helper process and turns
//! the binary records on its standard output into typed change events.
//!
//! Everything here is a function of plain values: the host program performs
//! the process and pipe operations and reports what it saw.

pub mod event;
pub mod frame;
pub mod frame_laws;
pub mod decoder;
pub mod error;
pub mod bridge;
pub mod bridge_laws;
pub mod supervisor;
pub mod helper;
