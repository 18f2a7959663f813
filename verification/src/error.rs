//! The failures that a watcher reports.

use crate::event::ProtocolError;
use vstd::prelude::*;

verus! {

/// A failure of reading the helper's output or of a process operation.
#[derive(Debug, PartialEq, Eq)]
pub enum IoError<E> {
    /// The output ended inside a frame.
    UnexpectedEof,
    /// A failure that the host met and handed in.
    Other(E),
}

/// Why a watcher could not be started, or why its stream of events ended.
#[derive(Debug, PartialEq, Eq)]
pub enum Error<E> {
    /// The helper was found to have exited right after the grace window.
    LaunchFailed,
    /// The helper exited within the grace window, with this exit code if it
    /// had one.
    EarlyExit(Option<i32>),
    /// The helper's output broke the wire format.
    Protocol(ProtocolError),
    /// Reading the output, or waiting for the helper, failed.
    Io(IoError<E>),
}

} // verus!
