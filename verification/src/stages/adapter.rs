//! Lets a push stage be used where a stage is expected.

use vstd::prelude::*;
use crate::error::Error;
use crate::executors::{ExitKind, HasObservers};
use crate::fuzzer::ExecutesInput;
use crate::stages::push::PushStage;
use crate::stages::restart::{clear_retry_step, no_retry_step, RetryCountRestartHelper};
use crate::stages::{restartable_run, Stage};
use crate::state::StdState;

verus! {

/// The prefix by which push stage adapters are commonly named.
pub const PUSH_STAGE_ADAPTER_NAME: &'static str = "pushstageadapter";

/// A stage that drives a push stage: it asks for inputs one by one and runs
/// each of them with the fuzzer.
pub struct PushStageAdapter<PS> {
    /// The name under which the adapter keeps its restart progress.
    pub name: String,
    /// The push stage that is driven.
    pub push_stage: PS,
}

impl<PS> PushStageAdapter<PS> {
    /// An adapter around `push_stage`. It keeps its restart progress under
    /// `name`, so the stages that work on one state need names of their own.
    pub fn new(push_stage: PS, name: String) -> (adapter: Self)
        ensures
            adapter == (PushStageAdapter { name, push_stage }),
    {
        PushStageAdapter { name, push_stage }
    }

    /// The name under which the adapter keeps its restart progress.
    pub fn name(&self) -> (name: &String)
        ensures
            *name == self.name,
    {
        &self.name
    }
}

/// The world of a driven push stage: the push stage, the fuzzer, the
/// executor, the state and the manager.
pub type DriveWorld<PS, E, EM, I, Z> = (PS, Z, E, StdState<I>, EM);

/// What follows a call of `post_exec` in a drive that began at a push stage
/// with `budget` inputs to come: an error ends the drive; after a success
/// the drive goes on from where the call left the world.
pub open spec fn after_report<PS, E, EM, I, Z>(
    budget: nat,
    reported: DriveWorld<PS, E, EM, I, Z>,
    report: Result<(), Error>,
    post: DriveWorld<PS, E, EM, I, Z>,
    r: Result<(), Error>,
) -> bool where
    PS: PushStage<EM, E::Observers, StdState<I>, Z>,
    E: HasObservers,
    Z: ExecutesInput<E, EM, PS::Input, StdState<I>>,

    decreases budget, 0nat,
{
    match report {
        Err(e) => r == Err::<(), Error>(e) && post == reported,
        Ok(()) => reported.0.remaining() < budget && push_drive(reported, post, r),
    }
}

/// What follows a call of `pre_exec` that left the world at `asked` and
/// answered `next`, in a drive that began with `budget` inputs to come.
/// Without an input the push stage is closed with `deinit`, whose answer is
/// the result. An error ends the drive. An input is run by the fuzzer on the
/// executor; then the push stage takes the report, with the observers as the
/// run left them.
pub open spec fn after_ask<PS, E, EM, I, Z>(
    budget: nat,
    asked: DriveWorld<PS, E, EM, I, Z>,
    next: Option<Result<PS::Input, Error>>,
    post: DriveWorld<PS, E, EM, I, Z>,
    r: Result<(), Error>,
) -> bool where
    PS: PushStage<EM, E::Observers, StdState<I>, Z>,
    E: HasObservers,
    Z: ExecutesInput<E, EM, PS::Input, StdState<I>>,

    decreases budget, 1nat,
{
    match next {
        None => exists|closed: (PS, Z, StdState<I>, EM, E::Observers)|
            {
                &&& #[trigger] PS::may_deinit(
                    (asked.0, asked.1, asked.3, asked.4, asked.2.observers_of()),
                    closed,
                    r,
                )
                &&& post == (
                    closed.0,
                    closed.1,
                    asked.2.with_observers(closed.4),
                    closed.2,
                    closed.3,
                )
            },
        Some(Err(e)) => r == Err::<(), Error>(e) && post == asked,
        Some(Ok(input)) => exists|
            ran: (Z, StdState<I>, E, EM),
            exit: Result<ExitKind, Error>,
        |
            {
                &&& #[trigger] Z::may_execute(
                    (asked.1, asked.3, asked.2, asked.4),
                    input,
                    ran,
                    exit,
                )
                &&& match exit {
                    Err(e) => r == Err::<(), Error>(e) && post == (
                        asked.0,
                        ran.0,
                        ran.2,
                        ran.1,
                        ran.3,
                    ),
                    Ok(exit_kind) => exists|
                        told: (PS, Z, StdState<I>, EM, E::Observers),
                        report: Result<(), Error>,
                    |
                        {
                            &&& #[trigger] PS::may_post_exec(
                                (asked.0, ran.0, ran.1, ran.3, ran.2.observers_of()),
                                input,
                                exit_kind,
                                told,
                                report,
                            )
                            &&& after_report::<PS, E, EM, I, Z>(
                                budget,
                                (told.0, told.1, ran.2.with_observers(told.4), told.2, told.3),
                                report,
                                post,
                                r,
                            )
                        },
                }
            },
    }
}

/// The drive of a push stage that was initialized: it is asked for its next
/// input, as `pre_exec` does, with the observers of the executor; what
/// follows is told by `after_ask`.
pub open spec fn push_drive<PS, E, EM, I, Z>(
    pre: DriveWorld<PS, E, EM, I, Z>,
    post: DriveWorld<PS, E, EM, I, Z>,
    r: Result<(), Error>,
) -> bool where
    PS: PushStage<EM, E::Observers, StdState<I>, Z>,
    E: HasObservers,
    Z: ExecutesInput<E, EM, PS::Input, StdState<I>>,

    decreases pre.0.remaining(), 2nat,
{
    exists|
        asked: (PS, Z, StdState<I>, EM, E::Observers),
        next: Option<Result<PS::Input, Error>>,
    |
        {
            &&& #[trigger] PS::may_pre_exec(
                (pre.0, pre.1, pre.3, pre.4, pre.2.observers_of()),
                asked,
                next,
            )
            &&& asked.0.remaining() <= pre.0.remaining()
            &&& after_ask::<PS, E, EM, I, Z>(
                asked.0.remaining(),
                (asked.0, asked.1, pre.2.with_observers(asked.4), asked.2, asked.3),
                next,
                post,
                r,
            )
        }
}

/// Drives a push stage that was initialized until it has no more inputs:
/// see `push_drive`.
pub fn drive<PS, E, EM, I, Z>(
    push_stage: &mut PS,
    fuzzer: &mut Z,
    executor: &mut E,
    state: &mut StdState<I>,
    event_mgr: &mut EM,
) -> (r: Result<(), Error>) where
    PS: PushStage<EM, E::Observers, StdState<I>, Z>,
    E: HasObservers,
    Z: ExecutesInput<E, EM, PS::Input, StdState<I>>,

    ensures
        push_drive(
            (*old(push_stage), *old(fuzzer), *old(executor), *old(state), *old(event_mgr)),
            (*final(push_stage), *final(fuzzer), *final(executor), *final(state), *final(event_mgr)),
            r,
        ),
    decreases old(push_stage).remaining(),
{
    let ghost pre = (*push_stage, *fuzzer, *executor, *state, *event_mgr);
    let observers = executor.observers_mut();
    let next = push_stage.pre_exec(fuzzer, state, event_mgr, observers);
    let ghost asked_parts = (*push_stage, *fuzzer, *state, *event_mgr, *observers);
    let ghost asked = (*push_stage, *fuzzer, *executor, *state, *event_mgr);
    let ghost budget = push_stage.remaining();
    assert(PS::may_pre_exec((pre.0, pre.1, pre.3, pre.4, pre.2.observers_of()), asked_parts, next));
    assert(asked.2 == pre.2.with_observers(asked_parts.4));
    let input = match next {
        Some(Ok(input)) => input,
        Some(Err(e)) => {
            assert(after_ask::<PS, E, EM, I, Z>(budget, asked, next, asked, Err(e)));
            return Err(e);
        },
        None => {
            let observers = executor.observers_mut();
            let r = push_stage.deinit(fuzzer, state, event_mgr, observers);
            proof {
                let closed = (*push_stage, *fuzzer, *state, *event_mgr, *observers);
                assert(PS::may_deinit(
                    (asked.0, asked.1, asked.3, asked.4, asked.2.observers_of()),
                    closed,
                    r,
                ));
                assert(after_ask::<PS, E, EM, I, Z>(
                    budget,
                    asked,
                    next,
                    (*push_stage, *fuzzer, *executor, *state, *event_mgr),
                    r,
                ));
            }
            return r;
        },
    };
    let exit = fuzzer.execute_input(state, executor, event_mgr, &input);
    let ghost ran = (*fuzzer, *state, *executor, *event_mgr);
    assert(Z::may_execute((asked.1, asked.3, asked.2, asked.4), input, ran, exit));
    let exit_kind = match exit {
        Ok(exit_kind) => exit_kind,
        Err(e) => {
            assert(after_ask::<PS, E, EM, I, Z>(
                budget,
                asked,
                next,
                (*push_stage, *fuzzer, *executor, *state, *event_mgr),
                Err(e),
            ));
            return Err(e);
        },
    };
    let observers = executor.observers_mut();
    let report = push_stage.post_exec(fuzzer, state, event_mgr, observers, input, exit_kind);
    let ghost told = (*push_stage, *fuzzer, *state, *event_mgr, *observers);
    let ghost reported = (*push_stage, *fuzzer, *executor, *state, *event_mgr);
    assert(PS::may_post_exec(
        (asked.0, ran.0, ran.1, ran.3, ran.2.observers_of()),
        input,
        exit_kind,
        told,
        report,
    ));
    assert(reported == (told.0, told.1, ran.2.with_observers(told.4), told.2, told.3));
    if let Err(e) = report {
        assert(after_report::<PS, E, EM, I, Z>(budget, reported, report, reported, Err(e)));
        assert(after_ask::<PS, E, EM, I, Z>(budget, asked, next, reported, Err(e)));
        return Err(e);
    }
    let r = drive(push_stage, fuzzer, executor, state, event_mgr);
    proof {
        let post = (*push_stage, *fuzzer, *executor, *state, *event_mgr);
        assert(after_report::<PS, E, EM, I, Z>(budget, reported, report, post, r));
        assert(after_ask::<PS, E, EM, I, Z>(budget, asked, next, post, r));
    }
    r
}

impl<PS, E, EM, I, Z> Stage<E, EM, StdState<I>, Z> for PushStageAdapter<PS> where
    PS: PushStage<EM, E::Observers, StdState<I>, Z>,
    E: HasObservers,
    Z: ExecutesInput<E, EM, PS::Input, StdState<I>>,
 {
    /// The adapter has no restart safety: it gets one run per round.
    open spec fn may_restart(pre: (Self, StdState<I>), post: (Self, StdState<I>), r: Result<
        bool,
        Error,
    >) -> bool {
        post.0 == pre.0 && no_retry_step(pre.0.name@, pre.1, post.1, r)
    }

    open spec fn may_clear(pre: (Self, StdState<I>), post: (Self, StdState<I>), r: Result<
        (),
        Error,
    >) -> bool {
        post.0 == pre.0 && clear_retry_step(pre.0.name@, pre.1, post.1, r)
    }

    /// `perform` fails with `IllegalState`, and changes nothing, while the
    /// state works on no corpus entry. Else the push stage is given the
    /// state's corpus entry and initialized with the observers of the
    /// executor; an error of `init` is the result; after a success the push
    /// stage is driven as `push_drive` tells.
    open spec fn may_perform(
        pre: (Self, Z, E, StdState<I>, EM),
        post: (Self, Z, E, StdState<I>, EM),
        r: Result<(), Error>,
    ) -> bool {
        match pre.3.corpus_id {
            None => r == Err::<(), Error>(Error::IllegalState) && post == pre,
            Some(corpus_id) => exists|
                chosen: PS,
                started: (PS, Z, StdState<I>, EM, E::Observers),
                start: Result<(), Error>,
            |
                {
                    &&& PS::may_set_corpus_id(pre.0.push_stage, corpus_id, chosen)
                    &&& #[trigger] PS::may_init(
                        (chosen, pre.1, pre.3, pre.4, pre.2.observers_of()),
                        started,
                        start,
                    )
                    &&& post.0.name == pre.0.name
                    &&& match start {
                        Err(e) => r == Err::<(), Error>(e) && (
                            post.0.push_stage,
                            post.1,
                            post.2,
                            post.3,
                            post.4,
                        ) == (
                            started.0,
                            started.1,
                            pre.2.with_observers(started.4),
                            started.2,
                            started.3,
                        ),
                        Ok(()) => push_drive::<PS, E, EM, I, Z>(
                            (
                                started.0,
                                started.1,
                                pre.2.with_observers(started.4),
                                started.2,
                                started.3,
                            ),
                            (post.0.push_stage, post.1, post.2, post.3, post.4),
                            r,
                        ),
                    }
                },
        }
    }

    fn should_restart(&mut self, state: &mut StdState<I>) -> (r: Result<bool, Error>) {
        RetryCountRestartHelper::no_retry(state, self.name.as_str())
    }

    fn clear_progress(&mut self, state: &mut StdState<I>) -> (r: Result<(), Error>) {
        RetryCountRestartHelper::clear_progress(state, self.name.as_str())
    }

    fn perform(
        &mut self,
        fuzzer: &mut Z,
        executor: &mut E,
        state: &mut StdState<I>,
        event_mgr: &mut EM,
    ) -> (r: Result<(), Error>) {
        let ghost pre = (*self, *fuzzer, *executor, *state, *event_mgr);
        let corpus_id = match state.current_corpus_id() {
            Ok(Some(corpus_id)) => corpus_id,
            Ok(None) => {
                return Err(Error::illegal_state());
            },
            Err(e) => {
                return Err(e);
            },
        };
        self.push_stage.set_current_corpus_id(corpus_id);
        let ghost chosen = self.push_stage;
        let observers = executor.observers_mut();
        let start = self.push_stage.init(fuzzer, state, event_mgr, observers);
        let ghost started = (self.push_stage, *fuzzer, *state, *event_mgr, *observers);
        assert(PS::may_set_corpus_id(pre.0.push_stage, corpus_id, chosen));
        assert(PS::may_init((chosen, pre.1, pre.3, pre.4, pre.2.observers_of()), started, start));
        if let Err(e) = start {
            return Err(e);
        }
        drive(&mut self.push_stage, fuzzer, executor, state, event_mgr)
    }
}

/// An adapter does not start its push stage while the state works on no
/// corpus entry: a restartable run then fails with `IllegalState` when the
/// adapter is asked whether it should run, and the adapter, the fuzzer, the
/// executor and the manager stay as they are.
pub proof fn lemma_adapter_needs_corpus_entry<PS, E, EM, I, Z>(
    pre: (PushStageAdapter<PS>, Z, E, StdState<I>, EM),
    post: (PushStageAdapter<PS>, Z, E, StdState<I>, EM),
    r: Result<(), Error>,
) where
    PS: PushStage<EM, E::Observers, StdState<I>, Z>,
    E: HasObservers,
    Z: ExecutesInput<E, EM, PS::Input, StdState<I>>,

    requires
        restartable_run::<PushStageAdapter<PS>, E, EM, StdState<I>, Z>(pre, post, r),
        pre.3.corpus_id is None,
    ensures
        r == Err::<(), Error>(Error::IllegalState),
        post.0 == pre.0,
        post.1 == pre.1,
        post.2 == pre.2,
        post.4 == pre.4,
        post.3.corpus_id is None,
{
}

} // verus!
