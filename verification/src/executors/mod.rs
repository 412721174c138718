//! What the core needs to know of an executor: how a run ended, and where the
//! observers live.

use vstd::prelude::*;
use crate::error::Error;

pub mod qemu;

verus! {

/// How one run of the target ended.
#[derive(Clone, Copy, Debug, PartialEq, Eq, Hash, Structural)]
pub enum ExitKind {
    /// The run finished normally.
    Okay,
    /// The target crashed.
    Crash,
    /// The target ran out of memory.
    Oom,
    /// The target did not finish in time.
    Timeout,
    /// Two executions of the same input disagreed.
    Diff,
    /// A kind defined by the user.
    User,
}

/// An executor runs the target on one input.
pub trait Executor<EM, I, S, Z>: Sized {
    /// What one call of `run_target` on `input` may do to the executor, the
    /// fuzzer, the state and the manager, and how the run may end.
    open spec fn may_run(pre: (Self, Z, S, EM), input: I, post: (Self, Z, S, EM), r: Result<
        ExitKind,
        Error,
    >) -> bool {
        true
    }

    /// Runs the target on `input`.
    fn run_target(&mut self, fuzzer: &mut Z, state: &mut S, mgr: &mut EM, input: &I) -> (r: Result<
        ExitKind,
        Error,
    >)
        ensures
            Self::may_run(
                (*old(self), *old(fuzzer), *old(state), *old(mgr)),
                *input,
                (*final(self), *final(fuzzer), *final(state), *final(mgr)),
                r,
            ),
    ;
}

/// An executor that owns the observers of its runs.
pub trait HasObservers: Sized {
    /// The observers, as one value.
    type Observers;

    /// The observers that `self` holds.
    open spec fn observers_of(self) -> Self::Observers {
        arbitrary()
    }

    /// `self` with its observers replaced by `observers`.
    open spec fn with_observers(self, observers: Self::Observers) -> Self {
        arbitrary()
    }

    /// The observers, for reading.
    fn observers(&self) -> (r: &Self::Observers)
        ensures
            *r == self.observers_of(),
    ;

    /// The observers, for updating: whatever the caller leaves behind the
    /// reference is what the executor holds afterwards.
    fn observers_mut(&mut self) -> (r: &mut Self::Observers)
        ensures
            *r == old(self).observers_of(),
            *final(self) == old(self).with_observers(*final(r)),
    ;
}

} // verus!
