//! The decisions of the helper's supervisor: whether a launch stands, and
//! what is owed to the process when its watcher is stopped or let go.

use crate::error::{Error, IoError};
use vstd::prelude::*;

verus! {

/// How long to wait for a freshly launched helper to exit, in milliseconds.
pub const GRACE_MILLIS: u64 = 150;

/// How many items the channel between the decode loop and the consumer
/// holds.
pub const CHANNEL_CAPACITY: usize = 256;

/// What the host saw of a freshly launched helper by the end of the grace
/// window.
#[derive(Debug, PartialEq, Eq)]
pub enum Grace<E> {
    /// The helper exited within the window, with this exit code if it had
    /// one.
    Exited(Option<i32>),
    /// Waiting for the helper failed.
    Failed(E),
    /// The window went by with the helper running. `exited_since` tells
    /// whether a status check made right after found that it had exited.
    Elapsed { exited_since: bool },
}

/// What is to be done to the helper process.
#[derive(Clone, Copy, Debug, PartialEq, Eq, Structural)]
pub enum Teardown {
    /// Nothing: the process has been dealt with.
    Nothing,
    /// Ask the process to terminate, without waiting for it.
    Signal,
    /// Ask the process to terminate and wait until it has been reaped.
    SignalAndReap,
}

impl Teardown {
    /// Whether the process is asked to terminate.
    pub open spec fn signals(self) -> bool {
        self != Teardown::Nothing
    }
}

/// The outcome of a launch.
pub open spec fn launch_outcome<E>(seen: Grace<E>) -> Result<(), Error<E>> {
    match seen {
        Grace::Exited(code) => Err(Error::EarlyExit(code)),
        Grace::Failed(e) => Err(Error::Io(IoError::Other(e))),
        Grace::Elapsed { exited_since } => if exited_since {
            Err(Error::LaunchFailed)
        } else {
            Ok(())
        },
    }
}

/// What stopping a helper calls for: signal and reap, unless it has been
/// stopped or let go before.
pub open spec fn stopping(stopped: bool) -> Teardown {
    if stopped {
        Teardown::Nothing
    } else {
        Teardown::SignalAndReap
    }
}

/// What letting go of a helper calls for: a signal, unless it has been
/// stopped or let go before.
pub open spec fn releasing(stopped: bool) -> Teardown {
    if stopped {
        Teardown::Nothing
    } else {
        Teardown::Signal
    }
}

/// A helper is handed out exactly where it was still running behind the
/// grace window, and one that exited within the window is always an early
/// exit with its code.
pub proof fn launch_stands_only_for_a_running_helper<E>(seen: Grace<E>)
    ensures
        launch_outcome(seen) is Ok <==> seen == (Grace::<E>::Elapsed { exited_since: false }),
        seen matches Grace::Exited(code) ==> launch_outcome(seen) == Err::<(), Error<E>>(
            Error::EarlyExit(code),
        ),
{
}

/// A helper is asked to terminate by whichever of stopping and letting go
/// comes first, and by no call after it.
pub proof fn running_helper_is_never_orphaned(stopped: bool)
    ensures
        stopping(stopped).signals() == !stopped,
        releasing(stopped).signals() == !stopped,
{
}

/// The handle on a running helper.
#[derive(Debug)]
pub struct AsyncWatcher {
    stopped: bool,
}

impl AsyncWatcher {
    /// Whether the helper has been stopped or let go.
    pub closed spec fn stopped(&self) -> bool {
        self.stopped
    }

    /// Decides whether a launch stands. A helper that exited within the
    /// grace window fails it with `EarlyExit`, a wait that failed with the
    /// failure, and a helper that exited right after the window with
    /// `LaunchFailed`. A helper that is still running is handed out.
    pub fn spawn<E>(seen: Grace<E>) -> (r: Result<AsyncWatcher, Error<E>>)
        ensures
            match launch_outcome(seen) {
                Ok(_) => r is Ok && !r->Ok_0.stopped(),
                Err(e) => r is Err && r->Err_0 == e,
            },
    {
        match seen {
            Grace::Exited(code) => Err(Error::EarlyExit(code)),
            Grace::Failed(e) => Err(Error::Io(IoError::Other(e))),
            Grace::Elapsed { exited_since } => if exited_since {
                Err(Error::LaunchFailed)
            } else {
                Ok(AsyncWatcher { stopped: false })
            },
        }
    }

    /// Whether the helper has been stopped or let go.
    pub fn is_stopped(&self) -> (b: bool)
        ensures
            b == self.stopped(),
    {
        self.stopped
    }

    /// Stops the helper: the first call has it signalled and reaped, and
    /// every later one finds nothing left to do.
    pub fn stop(&mut self) -> (owed: Teardown)
        ensures
            final(self).stopped(),
            owed == stopping(old(self).stopped()),
    {
        let owed = if self.stopped {
            Teardown::Nothing
        } else {
            Teardown::SignalAndReap
        };
        self.stopped = true;
        owed
    }

    /// Lets go of the helper as its owner goes out of use: a helper that
    /// was never stopped is signalled.
    pub fn release(&mut self) -> (owed: Teardown)
        ensures
            final(self).stopped(),
            owed == releasing(old(self).stopped()),
    {
        let owed = if self.stopped {
            Teardown::Nothing
        } else {
            Teardown::Signal
        };
        self.stopped = true;
        owed
    }
}

} // verus!
