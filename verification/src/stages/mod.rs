//! A stage is one unit of work applied to the current corpus entry. Stages
//! are composed into tuples that a worker walks once per fuzzing iteration,
//! and that it can re-enter after a restart without redoing finished work.

use vstd::prelude::*;
use crate::error::Error;
use crate::events::EventProcessor;
use crate::state::StdState;

pub mod adapter;
pub mod closure;
pub mod push;
pub mod restart;

verus! {

/// The position of a stage in its tuple, counted from the end: the head of a
/// tuple of `n` stages has index `n`.
#[derive(Clone, Copy, Debug, PartialEq, Eq, Hash, PartialOrd, Ord, Structural)]
pub struct StageId(pub usize);

impl StageId {
    /// The index as text: the number, as `usize` displays it.
    pub fn to_string(&self) -> (text: String)
        ensures
            vstd::string::to_string_from_display_ensures::<usize>(&self.0, text),
    {
        self.0.to_string()
    }
}

/// A state that records which stage is in progress.
pub trait HasCurrentStage: Sized {
    /// The stage that the state records as in progress.
    spec fn stage_in_progress(&self) -> Option<StageId>;

    /// Records that stage `idx` has been entered.
    fn set_current_stage_idx(&mut self, idx: StageId) -> (r: Result<(), Error>)
        ensures
            r is Ok ==> final(self).stage_in_progress() == Some(idx),
    ;

    /// Records that no stage is in progress.
    fn clear_stage(&mut self) -> (r: Result<(), Error>)
        ensures
            r is Ok ==> final(self).stage_in_progress() is None,
    ;

    /// The stage in progress, as read after a recovery.
    fn current_stage_idx(&self) -> (r: Result<Option<StageId>, Error>)
        ensures
            r is Ok ==> r->Ok_0 == self.stage_in_progress(),
    ;

    /// Whether the state does something when it is told of a restart. A
    /// state that does not override `on_restart` does nothing.
    open spec fn reacts_to_restart(&self) -> bool {
        false
    }

    /// Tells the state that the worker was restarted. A state that does not
    /// react to restarts stays as it is, and the call succeeds.
    fn on_restart(&mut self) -> (r: Result<(), Error>)
        ensures
            !old(self).reacts_to_restart() ==> r is Ok && *final(self) == *old(self),
    {
        Ok(())
    }
}

/// A state that tracks stages which themselves hold stage tuples.
pub trait HasNestedStageStatus: HasCurrentStage {
    /// Enters the scope of an inner tuple.
    fn enter_inner_stage(&mut self) -> Result<(), Error>;

    /// Leaves the scope of an inner tuple.
    fn exit_inner_stage(&mut self) -> Result<(), Error>;
}

/// A stage is one step of the fuzzing process. The stages of a tuple are
/// applied one by one to the current corpus entry.
pub trait Stage<E, EM, S, Z>: Sized {
    /// What one call of `should_restart` may do to the stage and the state,
    /// and what it may answer.
    open spec fn may_restart(pre: (Self, S), post: (Self, S), r: Result<bool, Error>) -> bool {
        true
    }

    /// What one call of `clear_progress` may do to the stage and the state.
    open spec fn may_clear(pre: (Self, S), post: (Self, S), r: Result<(), Error>) -> bool {
        true
    }

    /// What one call of `perform` may do to the stage, the fuzzer, the
    /// executor, the state and the manager.
    open spec fn may_perform(pre: (Self, Z, E, S, EM), post: (Self, Z, E, S, EM), r: Result<
        (),
        Error,
    >) -> bool {
        true
    }

    /// Initializes the restart tracking of this stage, or counts down in it
    /// after a restart, and answers whether `perform` should run.
    fn should_restart(&mut self, state: &mut S) -> (r: Result<bool, Error>)
        ensures
            Self::may_restart((*old(self), *old(state)), (*final(self), *final(state)), r),
    ;

    /// Marks the stage as no longer in progress.
    fn clear_progress(&mut self, state: &mut S) -> (r: Result<(), Error>)
        ensures
            Self::may_clear((*old(self), *old(state)), (*final(self), *final(state)), r),
    ;

    /// Does the work of the stage. Only `perform_restartable` calls this.
    fn perform(&mut self, fuzzer: &mut Z, executor: &mut E, state: &mut S, manager: &mut EM) -> (r:
        Result<(), Error>)
        ensures
            Self::may_perform(
                (*old(self), *old(fuzzer), *old(executor), *old(state), *old(manager)),
                (*final(self), *final(fuzzer), *final(executor), *final(state), *final(manager)),
                r,
            ),
    ;
}

/// What follows a call of `perform` that left the world at `performed` and
/// answered `done`: an error is handed on and nothing else happens, so the
/// progress of the stage stays as `perform` left it; after a success,
/// `clear_progress` is called once and its answer is the result.
pub open spec fn after_perform<St: Stage<E, EM, S, Z>, E, EM, S, Z>(
    performed: (St, Z, E, S, EM),
    done: Result<(), Error>,
    post: (St, Z, E, S, EM),
    r: Result<(), Error>,
) -> bool {
    match done {
        Err(e) => r == Err::<(), Error>(e) && post == performed,
        Ok(()) => {
            &&& St::may_clear((performed.0, performed.3), (post.0, post.3), r)
            &&& post.1 == performed.1
            &&& post.2 == performed.2
            &&& post.4 == performed.4
        },
    }
}

/// What follows a call of `should_restart` that left stage and state at
/// `asked` and answered `go`: an error is handed on; on `false` the stage is
/// not run and `clear_progress` is called; on `true` the stage is run once,
/// and what follows is told by `after_perform`.
pub open spec fn after_restart<St: Stage<E, EM, S, Z>, E, EM, S, Z>(
    pre: (St, Z, E, S, EM),
    asked: (St, S),
    go: Result<bool, Error>,
    post: (St, Z, E, S, EM),
    r: Result<(), Error>,
) -> bool {
    match go {
        Err(e) => r == Err::<(), Error>(e) && post == (asked.0, pre.1, pre.2, asked.1, pre.4),
        Ok(false) => {
            &&& St::may_clear(asked, (post.0, post.3), r)
            &&& post.1 == pre.1
            &&& post.2 == pre.2
            &&& post.4 == pre.4
        },
        Ok(true) => exists|performed: (St, Z, E, S, EM), done: Result<(), Error>|
            {
                &&& #[trigger] St::may_perform(
                    (asked.0, pre.1, pre.2, asked.1, pre.4),
                    performed,
                    done,
                )
                &&& after_perform::<St, E, EM, S, Z>(performed, done, post, r)
            },
    }
}

/// One restartable run of a stage, from `pre` to `post` with result `r`:
/// `should_restart` is asked once, and what follows is told by
/// `after_restart`.
pub open spec fn restartable_run<St: Stage<E, EM, S, Z>, E, EM, S, Z>(
    pre: (St, Z, E, S, EM),
    post: (St, Z, E, S, EM),
    r: Result<(), Error>,
) -> bool {
    exists|asked: (St, S), go: Result<bool, Error>|
        {
            &&& #[trigger] St::may_restart((pre.0, pre.3), asked, go)
            &&& after_restart::<St, E, EM, S, Z>(pre, asked, go, post, r)
        }
}

/// Every stage can be run with its restart tracking.
pub trait RestartableStage<E, EM, S, Z>: Stage<E, EM, S, Z> {
    /// Runs the stage with its restart tracking: see `restartable_run`.
    fn perform_restartable(
        &mut self,
        fuzzer: &mut Z,
        executor: &mut E,
        state: &mut S,
        manager: &mut EM,
    ) -> (r: Result<(), Error>)
        ensures
            restartable_run::<Self, E, EM, S, Z>(
                (*old(self), *old(fuzzer), *old(executor), *old(state), *old(manager)),
                (*final(self), *final(fuzzer), *final(executor), *final(state), *final(manager)),
                r,
            ),
    ;
}

impl<St: Stage<E, EM, S, Z>, E, EM, S, Z> RestartableStage<E, EM, S, Z> for St {
    fn perform_restartable(
        &mut self,
        fuzzer: &mut Z,
        executor: &mut E,
        state: &mut S,
        manager: &mut EM,
    ) -> (r: Result<(), Error>) {
        let ghost pre = (*self, *fuzzer, *executor, *state, *manager);
        let go = self.should_restart(state);
        let ghost asked = (*self, *state);
        assert(Self::may_restart((pre.0, pre.3), asked, go));
        let run = match go {
            Ok(run) => run,
            Err(e) => {
                return Err(e);
            },
        };
        if run {
            let done = self.perform(fuzzer, executor, state, manager);
            let ghost performed = (*self, *fuzzer, *executor, *state, *manager);
            assert(Self::may_perform((asked.0, pre.1, pre.2, asked.1, pre.4), performed, done));
            if let Err(e) = done {
                proof {
                    assert(after_perform::<Self, E, EM, S, Z>(performed, done, performed, Err(e)));
                    assert(after_restart::<Self, E, EM, S, Z>(pre, asked, go, performed, Err(e)));
                }
                return Err(e);
            }
            let r = self.clear_progress(state);
            proof {
                let post = (*self, *fuzzer, *executor, *state, *manager);
                assert(after_perform::<Self, E, EM, S, Z>(performed, done, post, r));
                assert(after_restart::<Self, E, EM, S, Z>(pre, asked, go, post, r));
            }
            r
        } else {
            let r = self.clear_progress(state);
            proof {
                let post = (*self, *fuzzer, *executor, *state, *manager);
                assert(after_restart::<Self, E, EM, S, Z>(pre, asked, go, post, r));
            }
            r
        }
    }
}

/// An ordered composition of stages that a worker walks once per fuzzing
/// iteration.
pub trait StagesTuple<E, EM, S, Z>: Sized {
    /// How many stages the composition holds.
    spec fn stage_count(self) -> nat;

    /// What one call of `perform_all` does: it takes the stages, the fuzzer,
    /// the executor, the state and the manager from `pre` to `post` and
    /// answers `r`.
    spec fn may_perform_all(pre: (Self, Z, E, S, EM), post: (Self, Z, E, S, EM), r: Result<
        (),
        Error,
    >) -> bool;

    /// How many stages the composition holds.
    fn len(&self) -> (n: usize)
        requires
            self.stage_count() <= usize::MAX,
        ensures
            n == self.stage_count(),
    ;

    /// Performs the stages in order.
    fn perform_all(&mut self, fuzzer: &mut Z, executor: &mut E, state: &mut S, manager: &mut EM) -> (r:
        Result<(), Error>)
        requires
            old(self).stage_count() <= usize::MAX,
        ensures
            Self::may_perform_all(
                (*old(self), *old(fuzzer), *old(executor), *old(state), *old(manager)),
                (*final(self), *final(fuzzer), *final(executor), *final(state), *final(manager)),
                r,
            ),
            final(self).stage_count() == old(self).stage_count(),
    ;
}

/// The check for a stop request at a stage boundary. Without a request
/// nothing happens. With one, the request is discarded, the manager is told
/// to shut down, and the result is an error: the manager's own, or
/// `ShuttingDown`.
pub open spec fn stop_check<EM: EventProcessor, I>(
    pre: (StdState<I>, EM),
    post: (StdState<I>, EM),
    r: Result<(), Error>,
) -> bool {
    if !pre.0.stop_requested {
        post == pre && r is Ok
    } else {
        &&& post.0 == (StdState { stop_requested: false, ..pre.0 })
        &&& exists|told: Result<(), Error>|
            {
                &&& #[trigger] EM::may_shut_down(pre.1, post.1, told)
                &&& r == match told {
                    Err(e) => Err::<(), Error>(e),
                    Ok(()) => Err::<(), Error>(Error::ShuttingDown),
                }
            }
    }
}

/// Checks for a stop request: see `stop_check`.
pub fn check_stop<EM: EventProcessor, I>(state: &mut StdState<I>, manager: &mut EM) -> (r: Result<
    (),
    Error,
>)
    ensures
        stop_check((*old(state), *old(manager)), (*final(state), *final(manager)), r),
{
    if state.stop_requested() {
        state.discard_stop_request();
        let told = manager.on_shutdown();
        proof {
            let pre = (*old(state), *old(manager));
            let post = (*state, *manager);
            assert(EM::may_shut_down(pre.1, post.1, told));
        }
        match told {
            Err(e) => Err(e),
            Ok(()) => Err(Error::shutting_down()),
        }
    } else {
        Ok(())
    }
}

impl<E, EM, I, Z> StagesTuple<E, EM, StdState<I>, Z> for () {
    open spec fn stage_count(self) -> nat {
        0
    }

    /// The end of a tuple: nothing changes. Arriving here while the state
    /// still records a stage in progress means that the resume never found
    /// its stage, which is an error.
    open spec fn may_perform_all(
        pre: ((), Z, E, StdState<I>, EM),
        post: ((), Z, E, StdState<I>, EM),
        r: Result<(), Error>,
    ) -> bool {
        &&& post == pre
        &&& r == if pre.3.stage_idx is Some {
            Err::<(), Error>(Error::IllegalState)
        } else {
            Ok::<(), Error>(())
        }
    }

    fn len(&self) -> (n: usize) {
        0
    }

    fn perform_all(
        &mut self,
        fuzzer: &mut Z,
        executor: &mut E,
        state: &mut StdState<I>,
        manager: &mut EM,
    ) -> (r: Result<(), Error>) {
        match state.current_stage_idx() {
            Ok(Some(_)) => Err(Error::illegal_state()),
            Ok(None) => Ok(()),
            Err(e) => Err(e),
        }
    }
}

/// The state with `idx` recorded as the stage in progress.
pub open spec fn with_stage<I>(state: StdState<I>, idx: Option<StageId>) -> StdState<I> {
    StdState { stage_idx: idx, ..state }
}

/// What the head of a tuple of `n` stages does when the tuple is walked.
///
/// Where the state records a stage index below `n`, the head was completed
/// before a restart: it is passed over and nothing changes. An index above
/// `n` cannot belong to this tuple and is an error. Otherwise the head is
/// the stage to run: index `n` is recorded (it already is, on a resume), the
/// head runs restartably, and after a success the record is cleared. An
/// error of the head is handed on with the record still in place.
pub open spec fn head_run<Head: Stage<E, EM, StdState<I>, Z>, E, EM, I, Z>(
    n: nat,
    pre: (Head, Z, E, StdState<I>, EM),
    post: (Head, Z, E, StdState<I>, EM),
    r: Result<(), Error>,
) -> bool {
    match pre.3.stage_idx {
        Some(idx) if idx.0 < n => post == pre && r is Ok,
        Some(idx) if idx.0 > n => post == pre && r == Err::<(), Error>(Error::IllegalState),
        _ => exists|ran: (Head, Z, E, StdState<I>, EM), done: Result<(), Error>|
            {
                &&& #[trigger] restartable_run::<Head, E, EM, StdState<I>, Z>(
                    (pre.0, pre.1, pre.2, with_stage(pre.3, Some(StageId(n as usize))), pre.4),
                    ran,
                    done,
                )
                &&& match done {
                    Err(e) => r == Err::<(), Error>(e) && post == ran,
                    Ok(()) => r is Ok && post == (
                        ran.0,
                        ran.1,
                        ran.2,
                        with_stage(ran.3, None),
                        ran.4,
                    ),
                }
            },
    }
}

/// What follows the head's part of a walk, which left the world at `headed`
/// and answered `head`: an error ends the walk; else a stop request is
/// checked for, and if there is none the tail is walked.
pub open spec fn after_head<Head, Tail: StagesTuple<E, EM, StdState<I>, Z>, E, EM: EventProcessor, I, Z>(
    headed: ((Head, Tail), Z, E, StdState<I>, EM),
    head: Result<(), Error>,
    post: ((Head, Tail), Z, E, StdState<I>, EM),
    r: Result<(), Error>,
) -> bool {
    match head {
        Err(e) => r == Err::<(), Error>(e) && post == headed,
        Ok(()) => exists|checked: (StdState<I>, EM), stop: Result<(), Error>|
            {
                &&& #[trigger] stop_check((headed.3, headed.4), checked, stop)
                &&& match stop {
                    Err(e) => r == Err::<(), Error>(e) && post == (
                        headed.0,
                        headed.1,
                        headed.2,
                        checked.0,
                        checked.1,
                    ),
                    Ok(()) => {
                        &&& post.0.0 == headed.0.0
                        &&& Tail::may_perform_all(
                            (headed.0.1, headed.1, headed.2, checked.0, checked.1),
                            (post.0.1, post.1, post.2, post.3, post.4),
                            r,
                        )
                    },
                }
            },
    }
}

impl<Head, Tail, E, EM, I, Z> StagesTuple<E, EM, StdState<I>, Z> for (Head, Tail) where
    Head: Stage<E, EM, StdState<I>, Z>,
    Tail: StagesTuple<E, EM, StdState<I>, Z>,
    EM: EventProcessor,
 {
    open spec fn stage_count(self) -> nat {
        self.1.stage_count() + 1
    }

    /// A walk of a tuple: the head's part, told by `head_run`, and what
    /// follows it, told by `after_head`.
    open spec fn may_perform_all(
        pre: ((Head, Tail), Z, E, StdState<I>, EM),
        post: ((Head, Tail), Z, E, StdState<I>, EM),
        r: Result<(), Error>,
    ) -> bool {
        exists|headed: (Head, Z, E, StdState<I>, EM), head: Result<(), Error>|
            {
                &&& #[trigger] head_run::<Head, E, EM, I, Z>(
                    pre.0.stage_count(),
                    (pre.0.0, pre.1, pre.2, pre.3, pre.4),
                    headed,
                    head,
                )
                &&& after_head::<Head, Tail, E, EM, I, Z>(
                    ((headed.0, pre.0.1), headed.1, headed.2, headed.3, headed.4),
                    head,
                    post,
                    r,
                )
            }
    }

    fn len(&self) -> (n: usize) {
        self.1.len() + 1
    }

    fn perform_all(
        &mut self,
        fuzzer: &mut Z,
        executor: &mut E,
        state: &mut StdState<I>,
        manager: &mut EM,
    ) -> (r: Result<(), Error>) {
        let ghost pre = (*self, *fuzzer, *executor, *state, *manager);
        let n: usize = self.1.len() + 1;
        let head = perform_head(&mut self.0, n, fuzzer, executor, state, manager);
        let ghost headed = (*self, *fuzzer, *executor, *state, *manager);
        assert(head_run::<Head, E, EM, I, Z>(
            pre.0.stage_count(),
            (pre.0.0, pre.1, pre.2, pre.3, pre.4),
            (headed.0.0, headed.1, headed.2, headed.3, headed.4),
            head,
        ));
        if let Err(e) = head {
            assert(after_head::<Head, Tail, E, EM, I, Z>(headed, head, headed, Err(e)));
            return Err(e);
        }
        let stop = check_stop(state, manager);
        let ghost checked = (*state, *manager);
        assert(stop_check((headed.3, headed.4), checked, stop));
        if let Err(e) = stop {
            assert(after_head::<Head, Tail, E, EM, I, Z>(
                headed,
                head,
                (*self, *fuzzer, *executor, *state, *manager),
                Err(e),
            ));
            return Err(e);
        }
        let r = self.1.perform_all(fuzzer, executor, state, manager);
        assert(after_head::<Head, Tail, E, EM, I, Z>(
            headed,
            head,
            (*self, *fuzzer, *executor, *state, *manager),
            r,
        ));
        r
    }
}

/// Runs the head of a tuple of `n` stages, or passes it over: see
/// `head_run`.
pub fn perform_head<Head: Stage<E, EM, StdState<I>, Z>, E, EM, I, Z>(
    head: &mut Head,
    n: usize,
    fuzzer: &mut Z,
    executor: &mut E,
    state: &mut StdState<I>,
    manager: &mut EM,
) -> (r: Result<(), Error>)
    ensures
        head_run::<Head, E, EM, I, Z>(
            n as nat,
            (*old(head), *old(fuzzer), *old(executor), *old(state), *old(manager)),
            (*final(head), *final(fuzzer), *final(executor), *final(state), *final(manager)),
            r,
        ),
{
    let ghost pre = (*head, *fuzzer, *executor, *state, *manager);
    match state.stage_idx {
        Some(idx) if idx.0 < n => {
            return Ok(());
        },
        Some(idx) if idx.0 > n => {
            return Err(Error::illegal_state());
        },
        Some(_) => {},
        None => {
            let _ = state.set_current_stage_idx(StageId(n));
        },
    }
    assert(*state == with_stage(pre.3, Some(StageId(n))));
    let done = head.perform_restartable(fuzzer, executor, state, manager);
    let ghost ran = (*head, *fuzzer, *executor, *state, *manager);
    assert(restartable_run::<Head, E, EM, StdState<I>, Z>(
        (pre.0, pre.1, pre.2, with_stage(pre.3, Some(StageId(n))), pre.4),
        ran,
        done,
    ));
    if let Err(e) = done {
        return Err(e);
    }
    let _ = state.clear_stage();
    Ok(())
}

/// A tuple whose walk takes part in the resume protocol.
pub trait ResumableTuple<E, EM, I, Z>: StagesTuple<E, EM, StdState<I>, Z> {
    /// A walk that completes leaves no stage recorded as in progress,
    /// whatever the state recorded before and whatever the stages did to it.
    proof fn lemma_completed_walk_clears_stage(
        pre: (Self, Z, E, StdState<I>, EM),
        post: (Self, Z, E, StdState<I>, EM),
        r: Result<(), Error>,
    )
        requires
            Self::may_perform_all(pre, post, r),
            r is Ok,
        ensures
            post.3.stage_idx is None,
    ;
}

impl<E, EM, I, Z> ResumableTuple<E, EM, I, Z> for () {
    proof fn lemma_completed_walk_clears_stage(
        pre: ((), Z, E, StdState<I>, EM),
        post: ((), Z, E, StdState<I>, EM),
        r: Result<(), Error>,
    ) {
    }
}

impl<Head, Tail, E, EM, I, Z> ResumableTuple<E, EM, I, Z> for (Head, Tail) where
    Head: Stage<E, EM, StdState<I>, Z>,
    Tail: ResumableTuple<E, EM, I, Z>,
    EM: EventProcessor,
 {
    proof fn lemma_completed_walk_clears_stage(
        pre: ((Head, Tail), Z, E, StdState<I>, EM),
        post: ((Head, Tail), Z, E, StdState<I>, EM),
        r: Result<(), Error>,
    ) {
        let (headed, head): ((Head, Z, E, StdState<I>, EM), Result<(), Error>) = choose|
            headed: (Head, Z, E, StdState<I>, EM),
            head: Result<(), Error>,
        |
            {
                &&& #[trigger] head_run::<Head, E, EM, I, Z>(
                    pre.0.stage_count(),
                    (pre.0.0, pre.1, pre.2, pre.3, pre.4),
                    headed,
                    head,
                )
                &&& after_head::<Head, Tail, E, EM, I, Z>(
                    ((headed.0, pre.0.1), headed.1, headed.2, headed.3, headed.4),
                    head,
                    post,
                    r,
                )
            };
        let (checked, stop): ((StdState<I>, EM), Result<(), Error>) = choose|
            checked: (StdState<I>, EM),
            stop: Result<(), Error>,
        |
            {
                &&& #[trigger] stop_check((headed.3, headed.4), checked, stop)
                &&& match stop {
                    Err(e) => false,
                    Ok(()) => Tail::may_perform_all(
                        (pre.0.1, headed.1, headed.2, checked.0, checked.1),
                        (post.0.1, post.1, post.2, post.3, post.4),
                        r,
                    ),
                }
            };
        Tail::lemma_completed_walk_clears_stage(
            (pre.0.1, headed.1, headed.2, checked.0, checked.1),
            (post.0.1, post.1, post.2, post.3, post.4),
            r,
        );
    }
}

/// A walk of a vector of stages from position `k` on: before each stage a
/// stop request is checked for, as `stop_check` tells; then the stage runs
/// restartably. The first error ends the walk. The stage index of the state
/// plays no part.
pub open spec fn vec_walk<St: Stage<E, EM, StdState<I>, Z>, E, EM: EventProcessor, I, Z>(
    k: nat,
    pre: (Seq<St>, Z, E, StdState<I>, EM),
    post: (Seq<St>, Z, E, StdState<I>, EM),
    r: Result<(), Error>,
) -> bool
    decreases pre.0.len() - k,
{
    if k >= pre.0.len() {
        post == pre && r is Ok
    } else {
        exists|checked: (StdState<I>, EM), stop: Result<(), Error>|
            {
                &&& #[trigger] stop_check((pre.3, pre.4), checked, stop)
                &&& match stop {
                    Err(e) => r == Err::<(), Error>(e) && post == (
                        pre.0,
                        pre.1,
                        pre.2,
                        checked.0,
                        checked.1,
                    ),
                    Ok(()) => exists|ran: (St, Z, E, StdState<I>, EM), done: Result<(), Error>|
                        {
                            &&& #[trigger] restartable_run::<St, E, EM, StdState<I>, Z>(
                                (pre.0[k as int], pre.1, pre.2, checked.0, checked.1),
                                ran,
                                done,
                            )
                            &&& match done {
                                Err(e) => r == Err::<(), Error>(e) && post == (
                                    pre.0.update(k as int, ran.0),
                                    ran.1,
                                    ran.2,
                                    ran.3,
                                    ran.4,
                                ),
                                Ok(()) => vec_walk::<St, E, EM, I, Z>(
                                    k + 1,
                                    (pre.0.update(k as int, ran.0), ran.1, ran.2, ran.3, ran.4),
                                    post,
                                    r,
                                ),
                            }
                        },
                }
            }
    }
}

/// Walks the stages of `stages` from position `k` on: see `vec_walk`.
pub fn perform_from<St: Stage<E, EM, StdState<I>, Z>, E, EM: EventProcessor, I, Z>(
    stages: &mut Vec<St>,
    k: usize,
    fuzzer: &mut Z,
    executor: &mut E,
    state: &mut StdState<I>,
    manager: &mut EM,
) -> (r: Result<(), Error>)
    ensures
        vec_walk::<St, E, EM, I, Z>(
            k as nat,
            (old(stages)@, *old(fuzzer), *old(executor), *old(state), *old(manager)),
            (final(stages)@, *final(fuzzer), *final(executor), *final(state), *final(manager)),
            r,
        ),
        final(stages)@.len() == old(stages)@.len(),
    decreases old(stages)@.len() - k,
{
    let ghost pre = (stages@, *fuzzer, *executor, *state, *manager);
    if k >= stages.len() {
        return Ok(());
    }
    let stop = check_stop(state, manager);
    let ghost checked = (*state, *manager);
    assert(stop_check((pre.3, pre.4), checked, stop));
    if let Err(e) = stop {
        return Err(e);
    }
    let done = stages[k].perform_restartable(fuzzer, executor, state, manager);
    let ghost ran = (stages@[k as int], *fuzzer, *executor, *state, *manager);
    assert(restartable_run::<St, E, EM, StdState<I>, Z>(
        (pre.0[k as int], pre.1, pre.2, checked.0, checked.1),
        ran,
        done,
    ));
    assert(stages@ == pre.0.update(k as int, ran.0));
    if let Err(e) = done {
        return Err(e);
    }
    perform_from(stages, k + 1, fuzzer, executor, state, manager)
}

impl<St, E, EM, I, Z> StagesTuple<E, EM, StdState<I>, Z> for Vec<St> where
    St: Stage<E, EM, StdState<I>, Z>,
    EM: EventProcessor,
 {
    open spec fn stage_count(self) -> nat {
        self@.len()
    }

    /// A walk of the whole vector: see `vec_walk`.
    open spec fn may_perform_all(
        pre: (Vec<St>, Z, E, StdState<I>, EM),
        post: (Vec<St>, Z, E, StdState<I>, EM),
        r: Result<(), Error>,
    ) -> bool {
        vec_walk::<St, E, EM, I, Z>(
            0,
            (pre.0@, pre.1, pre.2, pre.3, pre.4),
            (post.0@, post.1, post.2, post.3, post.4),
            r,
        )
    }

    fn len(&self) -> (n: usize) {
        Vec::len(self)
    }

    fn perform_all(
        &mut self,
        fuzzer: &mut Z,
        executor: &mut E,
        state: &mut StdState<I>,
        manager: &mut EM,
    ) -> (r: Result<(), Error>) {
        perform_from(self, 0, fuzzer, executor, state, manager)
    }
}

} // verus!
