//! What the core asks of an event manager.

use vstd::prelude::*;
use crate::error::Error;

verus! {

/// An event manager that can be told that the worker shuts down.
pub trait EventProcessor: Sized {
    /// What one call of `on_shutdown` may do: it takes the manager from
    /// `pre` to `post` and answers `r`.
    open spec fn may_shut_down(pre: Self, post: Self, r: Result<(), Error>) -> bool {
        true
    }

    /// Tells the manager that the worker shuts down, so that it can flush.
    fn on_shutdown(&mut self) -> (r: Result<(), Error>)
        ensures
            Self::may_shut_down(*old(self), *final(self), r),
    ;
}

/// An event manager that reports progress now and then.
pub trait ProgressReporter<S>: Sized {
    /// What one call of `maybe_report_progress` with the given interval may
    /// do to the manager and the state.
    open spec fn may_report(pre: (Self, S), interval_secs: u64, post: (Self, S), r: Result<
        (),
        Error,
    >) -> bool {
        true
    }

    /// Reports progress if the last report is at least `interval_secs`
    /// seconds old.
    fn maybe_report_progress(&mut self, state: &mut S, interval_secs: u64) -> (r: Result<(), Error>)
        ensures
            Self::may_report(
                (*old(self), *old(state)),
                interval_secs,
                (*final(self), *final(state)),
                r,
            ),
    ;
}

} // verus!
