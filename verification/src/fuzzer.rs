//! What the core asks of the fuzzer that drives it.

use vstd::prelude::*;
use crate::corpus::CorpusId;
use crate::error::Error;
use crate::executors::ExitKind;
use crate::schedulers::Scheduler;

verus! {

/// A fuzzer that owns a scheduler.
pub trait HasScheduler<S>: Sized {
    /// The scheduler's type.
    type Scheduler: Scheduler<S>;

    /// The scheduler that `self` holds.
    open spec fn scheduler_of(self) -> Self::Scheduler {
        arbitrary()
    }

    /// `self` with its scheduler replaced by `scheduler`.
    open spec fn with_scheduler(self, scheduler: Self::Scheduler) -> Self {
        arbitrary()
    }

    /// The scheduler, for asking it: whatever the caller leaves behind the
    /// reference is what the fuzzer holds afterwards.
    fn scheduler_mut(&mut self) -> (r: &mut Self::Scheduler)
        ensures
            *r == old(self).scheduler_of(),
            *final(self) == old(self).with_scheduler(*final(r)),
    ;
}

/// A fuzzer that can run one input on an executor.
pub trait ExecutesInput<E, EM, I, S>: Sized {
    /// What one call of `execute_input` on `input` may do to the fuzzer, the
    /// state, the executor and the manager, and how the run may end.
    open spec fn may_execute(pre: (Self, S, E, EM), input: I, post: (Self, S, E, EM), r: Result<
        ExitKind,
        Error,
    >) -> bool {
        true
    }

    /// Runs `input` on `executor`.
    fn execute_input(&mut self, state: &mut S, executor: &mut E, manager: &mut EM, input: &I) -> (r:
        Result<ExitKind, Error>)
        ensures
            Self::may_execute(
                (*old(self), *old(state), *old(executor), *old(manager)),
                *input,
                (*final(self), *final(state), *final(executor), *final(manager)),
                r,
            ),
    ;
}

/// A fuzzer that can judge a finished run and keep the input if it is
/// interesting.
pub trait ExecutionProcessor<EM, I, OT, S>: Sized {
    /// What one call of `evaluate_execution` may do to the fuzzer, the state
    /// and the manager, and what it may answer.
    open spec fn may_evaluate(
        pre: (Self, S, EM),
        input: I,
        observers: OT,
        exit_kind: ExitKind,
        send_events: bool,
        post: (Self, S, EM),
        r: Result<(bool, Option<CorpusId>), Error>,
    ) -> bool {
        true
    }

    /// Judges the run of `input` that ended with `exit_kind`: answers whether
    /// it was interesting, and the id under which it was kept, if it was.
    fn evaluate_execution(
        &mut self,
        state: &mut S,
        manager: &mut EM,
        input: I,
        observers: &OT,
        exit_kind: &ExitKind,
        send_events: bool,
    ) -> (r: Result<(bool, Option<CorpusId>), Error>)
        ensures
            Self::may_evaluate(
                (*old(self), *old(state), *old(manager)),
                input,
                *observers,
                *exit_kind,
                send_events,
                (*final(self), *final(state), *final(manager)),
                r,
            ),
    ;
}

} // verus!
