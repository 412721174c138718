//! The mutational push stage: for the current corpus entry it hands out a
//! random number of mutated copies, one at a time.

use vstd::prelude::*;
use crate::corpus::CorpusId;
use crate::error::Error;
use crate::events::ProgressReporter;
use crate::executors::ExitKind;
use crate::fuzzer::{ExecutionProcessor, HasScheduler};
use crate::mutators::{MutationResult, Mutator};
use crate::schedulers::Scheduler;
use crate::stages::push::{PushStage, PushStageHelper, PushStageSharedState};
use crate::state::StdState;

verus! {

/// After how many seconds without a report a finished round sends one.
pub const STATS_TIMEOUT_DEFAULT_SECS: u64 = 15;

/// The most mutated copies that one round hands out.
pub const DEFAULT_MUTATIONAL_MAX_ITERATIONS: usize = 128;

/// The number of inputs of a round for which the random source drew `draw`:
/// one more than the draw, so that every round hands out at least one input.
pub fn iterations_for_draw(draw: usize) -> (n: usize)
    requires
        draw < usize::MAX,
    ensures
        n == draw + 1,
{
    1 + draw
}

/// The default mutational push stage.
pub struct StdMutationalPushStage<EM, I, OT, M, Z> {
    /// The corpus entry of the round.
    pub current_corpus_id: Option<CorpusId>,
    /// How many inputs the round hands out.
    pub testcases_to_do: usize,
    /// How many inputs of the round were run and reported.
    pub testcases_done: usize,
    /// The mutator.
    pub mutator: M,
    /// The bookkeeping between two inputs.
    pub psh: PushStageHelper<EM, I, OT, StdState<I>, Z>,
}

/// The world of a mutational push stage: the stage, the fuzzer, the state,
/// the manager and the observers.
pub type PushWorld<EM, I, OT, M, Z> = (
    StdMutationalPushStage<EM, I, OT, M, Z>,
    Z,
    StdState<I>,
    EM,
    OT,
);

/// The start of a round once its corpus entry `id` is settled, with stage,
/// fuzzer and state at `settled`: the number of inputs to hand out is drawn
/// from the state's random source and lies between one and the maximum; the
/// count of inputs done starts at zero. Nothing else changes.
pub open spec fn round_armed<EM, I, OT, M, Z>(
    id: CorpusId,
    settled: PushWorld<EM, I, OT, M, Z>,
    post: PushWorld<EM, I, OT, M, Z>,
) -> bool {
    &&& post.0 == (StdMutationalPushStage {
        current_corpus_id: Some(id),
        testcases_to_do: post.0.testcases_to_do,
        testcases_done: 0,
        ..settled.0
    })
    &&& 1 <= post.0.testcases_to_do <= DEFAULT_MUTATIONAL_MAX_ITERATIONS
    &&& post.1 == settled.1
    &&& post.2.same_but_rand(settled.2)
    &&& post.3 == settled.3
    &&& post.4 == settled.4
}

impl<EM, I, OT, M, Z> StdMutationalPushStage<EM, I, OT, M, Z> {
    /// A stage that has not started, around `mutator`.
    pub fn new(
        mutator: M,
        shared_state: Option<PushStageSharedState<EM, OT, StdState<I>, Z>>,
        exit_kind: Option<ExitKind>,
    ) -> (stage: Self)
        ensures
            stage == (StdMutationalPushStage::<EM, I, OT, M, Z> {
                current_corpus_id: None,
                testcases_to_do: 0,
                testcases_done: 0,
                mutator,
                psh: PushStageHelper::<EM, I, OT, StdState<I>, Z> {
                    initialized: false,
                    shared_state,
                    errored: false,
                    current_corpus_id: None,
                    current_input: None,
                    exit_kind,
                },
            }),
    {
        StdMutationalPushStage {
            mutator,
            psh: PushStageHelper::new(shared_state, exit_kind),
            current_corpus_id: None,
            testcases_to_do: 0,
            testcases_done: 0,
        }
    }

    /// Chooses the corpus entry of the next round.
    pub fn set_current_corpus_id(&mut self, current_corpus_id: CorpusId)
        ensures
            *final(self) == (StdMutationalPushStage {
                current_corpus_id: Some(current_corpus_id),
                ..*old(self)
            }),
    {
        self.current_corpus_id = Some(current_corpus_id);
    }

    /// The bookkeeping between two inputs.
    pub fn push_stage_helper(&self) -> (r: &PushStageHelper<EM, I, OT, StdState<I>, Z>)
        ensures
            *r == self.psh,
    {
        &self.psh
    }

    /// The bookkeeping between two inputs, for the driver to update.
    pub fn push_stage_helper_mut(&mut self) -> (r: &mut PushStageHelper<EM, I, OT, StdState<I>, Z>)
        ensures
            *r == old(self).psh,
            *final(self) == (StdMutationalPushStage { psh: *final(r), ..*old(self) }),
    {
        &mut self.psh
    }

    /// The number of inputs of a round: what `iterations_for_draw` makes of
    /// a draw below the maximum from the state's random source. Only that
    /// source changes.
    pub fn iterations(&self, state: &mut StdState<I>, corpus_id: CorpusId) -> (r: Result<usize, Error>)
        ensures
            r is Ok,
            1 <= r->Ok_0 <= DEFAULT_MUTATIONAL_MAX_ITERATIONS,
            final(state).same_but_rand(*old(state)),
    {
        Ok(iterations_for_draw(state.rand_below(DEFAULT_MUTATIONAL_MAX_ITERATIONS)))
    }

    /// How many inputs of the round are still to be handed out.
    pub open spec fn inputs_left(self) -> nat {
        if self.testcases_to_do > self.testcases_done {
            (self.testcases_to_do - self.testcases_done) as nat
        } else {
            0
        }
    }
}

/// What `init` of the mutational push stage does. A corpus entry that the
/// driver chose is kept; else the fuzzer's scheduler is asked for one, and
/// its error ends the call with the stage untouched. Then the round starts
/// as `round_armed` tells.
pub open spec fn mutational_init<EM, I, OT, M, Z: HasScheduler<StdState<I>>>(
    pre: PushWorld<EM, I, OT, M, Z>,
    post: PushWorld<EM, I, OT, M, Z>,
    r: Result<(), Error>,
) -> bool {
    match pre.0.current_corpus_id {
        Some(id) => r is Ok && round_armed(id, pre, post),
        None => exists|picked: (Z::Scheduler, StdState<I>), pick: Result<CorpusId, Error>|
            {
                &&& #[trigger] <Z::Scheduler as Scheduler<StdState<I>>>::may_pick(
                    (pre.1.scheduler_of(), pre.2),
                    picked,
                    pick,
                )
                &&& match pick {
                    Err(e) => r == Err::<(), Error>(e) && post == (
                        pre.0,
                        pre.1.with_scheduler(picked.0),
                        picked.1,
                        pre.3,
                        pre.4,
                    ),
                    Ok(id) => r is Ok && round_armed(
                        id,
                        (pre.0, pre.1.with_scheduler(picked.0), picked.1, pre.3, pre.4),
                        post,
                    ),
                }
            },
    }
}

/// What `pre_exec` of the mutational push stage does. Once as many inputs
/// were reported as the round hands out, the answer is `None` and nothing
/// changes. Else the input of the round's corpus entry is cloned (the corpus
/// itself is never touched), the mutator works on the clone, and the result
/// is handed out, with a clone of it kept for the report. Without a corpus
/// entry, or where the entry has no input, or where the mutator fails, the
/// answer is that error.
pub open spec fn mutational_pre_exec<EM, I: Clone, OT, M: Mutator<I, StdState<I>>, Z>(
    pre: PushWorld<EM, I, OT, M, Z>,
    post: PushWorld<EM, I, OT, M, Z>,
    r: Option<Result<I, Error>>,
) -> bool {
    if pre.0.testcases_done >= pre.0.testcases_to_do {
        r is None && post == pre
    } else {
        match pre.0.current_corpus_id {
            None => r == Some(Err::<I, Error>(Error::IllegalState)) && post == pre,
            Some(id) => match pre.2.corpus.input_failure(id) {
                Some(e) => r == Some(Err::<I, Error>(e)) && post == pre,
                None => exists|
                    copy: I,
                    mutated: (M, StdState<I>, I),
                    outcome: Result<MutationResult, Error>,
                |
                    {
                        &&& cloned(pre.2.corpus.entries@[id.0 as int].input->0, copy)
                        &&& #[trigger] M::may_mutate((pre.0.mutator, pre.2, copy), mutated, outcome)
                        &&& post.1 == pre.1
                        &&& post.2 == mutated.1
                        &&& post.3 == pre.3
                        &&& post.4 == pre.4
                        &&& match outcome {
                            Err(e) => r == Some(Err::<I, Error>(e)) && post.0 == (
                                StdMutationalPushStage { mutator: mutated.0, ..pre.0 }
                            ),
                            Ok(_) => {
                                &&& r == Some(Ok::<I, Error>(mutated.2))
                                &&& post.0.psh.current_input is Some
                                &&& cloned(mutated.2, post.0.psh.current_input->0)
                                &&& post.0 == (StdMutationalPushStage {
                                    mutator: mutated.0,
                                    psh: PushStageHelper {
                                        current_input: post.0.psh.current_input,
                                        ..pre.0.psh
                                    },
                                    ..pre.0
                                })
                            },
                        }
                    },
            },
        }
    }
}

/// What `post_exec` of the mutational push stage does. The fuzzer evaluates
/// the run, with events sent; then the mutator is told; then the count of
/// inputs done goes up by one. The first error ends the call. A count that
/// cannot go up is an `IllegalState`.
pub open spec fn mutational_post_exec<
    EM,
    I,
    OT,
    M: Mutator<I, StdState<I>>,
    Z: ExecutionProcessor<EM, I, OT, StdState<I>>,
>(
    pre: PushWorld<EM, I, OT, M, Z>,
    last_input: I,
    exit_kind: ExitKind,
    post: PushWorld<EM, I, OT, M, Z>,
    r: Result<(), Error>,
) -> bool {
    exists|evaluated: (Z, StdState<I>, EM), verdict: Result<(bool, Option<CorpusId>), Error>|
        {
            &&& #[trigger] Z::may_evaluate(
                (pre.1, pre.2, pre.3),
                last_input,
                pre.4,
                exit_kind,
                true,
                evaluated,
                verdict,
            )
            &&& post.1 == evaluated.0
            &&& post.3 == evaluated.2
            &&& post.4 == pre.4
            &&& match verdict {
                Err(e) => r == Err::<(), Error>(e) && post.0 == pre.0 && post.2 == evaluated.1,
                Ok(_) => exists|told: (M, StdState<I>), ack: Result<(), Error>|
                    {
                        &&& #[trigger] M::may_post_exec(
                            (pre.0.mutator, evaluated.1),
                            pre.0.current_corpus_id,
                            told,
                            ack,
                        )
                        &&& post.2 == told.1
                        &&& match ack {
                            Err(e) => r == Err::<(), Error>(e) && post.0 == (
                                StdMutationalPushStage { mutator: told.0, ..pre.0 }
                            ),
                            Ok(()) => if pre.0.testcases_done == usize::MAX {
                                r == Err::<(), Error>(Error::IllegalState) && post.0 == (
                                    StdMutationalPushStage { mutator: told.0, ..pre.0 }
                                )
                            } else {
                                r is Ok && post.0 == (StdMutationalPushStage {
                                    mutator: told.0,
                                    testcases_done: (pre.0.testcases_done + 1) as usize,
                                    ..pre.0
                                })
                            },
                        }
                    },
            }
        }
}

impl<EM, I, OT, M, Z> PushStage<EM, OT, StdState<I>, Z> for StdMutationalPushStage<EM, I, OT, M, Z> where
    I: Clone,
    M: Mutator<I, StdState<I>>,
    Z: HasScheduler<StdState<I>> + ExecutionProcessor<EM, I, OT, StdState<I>>,
 {
    type Input = I;

    open spec fn remaining(self) -> nat {
        self.inputs_left()
    }

    open spec fn may_set_corpus_id(pre: Self, corpus_id: CorpusId, post: Self) -> bool {
        post == (StdMutationalPushStage { current_corpus_id: Some(corpus_id), ..pre })
    }

    open spec fn may_init(
        pre: PushWorld<EM, I, OT, M, Z>,
        post: PushWorld<EM, I, OT, M, Z>,
        r: Result<(), Error>,
    ) -> bool {
        mutational_init(pre, post, r)
    }

    open spec fn may_pre_exec(
        pre: PushWorld<EM, I, OT, M, Z>,
        post: PushWorld<EM, I, OT, M, Z>,
        r: Option<Result<I, Error>>,
    ) -> bool {
        mutational_pre_exec(pre, post, r)
    }

    open spec fn may_post_exec(
        pre: PushWorld<EM, I, OT, M, Z>,
        last_input: I,
        exit_kind: ExitKind,
        post: PushWorld<EM, I, OT, M, Z>,
        r: Result<(), Error>,
    ) -> bool {
        mutational_post_exec(pre, last_input, exit_kind, post, r)
    }

    /// `deinit` forgets the corpus entry of the round, so that the next
    /// round asks for one anew. Nothing else changes.
    open spec fn may_deinit(
        pre: PushWorld<EM, I, OT, M, Z>,
        post: PushWorld<EM, I, OT, M, Z>,
        r: Result<(), Error>,
    ) -> bool {
        &&& r is Ok
        &&& post == (
            StdMutationalPushStage { current_corpus_id: None, ..pre.0 },
            pre.1,
            pre.2,
            pre.3,
            pre.4,
        )
    }

    fn set_current_corpus_id(&mut self, corpus_id: CorpusId) {
        self.current_corpus_id = Some(corpus_id);
    }

    fn init(
        &mut self,
        fuzzer: &mut Z,
        state: &mut StdState<I>,
        event_mgr: &mut EM,
        observers: &mut OT,
    ) -> (r: Result<(), Error>) {
        let ghost pre = (*self, *fuzzer, *state, *event_mgr, *observers);
        let corpus_id = match self.current_corpus_id {
            Some(corpus_id) => corpus_id,
            None => {
                let scheduler = fuzzer.scheduler_mut();
                let pick = scheduler.next(state);
                proof {
                    let picked = (*scheduler, *state);
                    assert(<Z::Scheduler as Scheduler<StdState<I>>>::may_pick(
                        (pre.1.scheduler_of(), pre.2),
                        picked,
                        pick,
                    ));
                }
                match pick {
                    Ok(corpus_id) => corpus_id,
                    Err(e) => {
                        return Err(e);
                    },
                }
            },
        };
        self.current_corpus_id = Some(corpus_id);
        let ghost settled = (pre.0, *fuzzer, *state, pre.3, pre.4);
        self.testcases_to_do = match self.iterations(state, corpus_id) {
            Ok(testcases_to_do) => testcases_to_do,
            Err(e) => {
                return Err(e);
            },
        };
        self.testcases_done = 0;
        assert(round_armed(corpus_id, settled, (*self, *fuzzer, *state, *event_mgr, *observers)));
        Ok(())
    }

    fn pre_exec(
        &mut self,
        fuzzer: &mut Z,
        state: &mut StdState<I>,
        event_mgr: &mut EM,
        observers: &mut OT,
    ) -> (r: Option<Result<I, Error>>) {
        let ghost pre = (*self, *fuzzer, *state, *event_mgr, *observers);
        if self.testcases_done >= self.testcases_to_do {
            return None;
        }
        let corpus_id = match self.current_corpus_id {
            Some(corpus_id) => corpus_id,
            None => {
                return Some(Err(Error::illegal_state()));
            },
        };
        let mut input = match state.corpus.cloned_input_for_id(corpus_id) {
            Err(e) => {
                return Some(Err(e));
            },
            Ok(input) => input,
        };
        let ghost copy = input;
        let outcome = self.mutator.mutate(state, &mut input);
        proof {
            let mutated = (self.mutator, *state, input);
            assert(M::may_mutate((pre.0.mutator, pre.2, copy), mutated, outcome));
        }
        if let Err(e) = outcome {
            return Some(Err(e));
        }
        self.psh.current_input = Some(input.clone());
        Some(Ok(input))
    }

    fn post_exec(
        &mut self,
        fuzzer: &mut Z,
        state: &mut StdState<I>,
        event_mgr: &mut EM,
        observers: &mut OT,
        last_input: I,
        exit_kind: ExitKind,
    ) -> (r: Result<(), Error>) {
        let ghost pre = (*self, *fuzzer, *state, *event_mgr, *observers);
        let verdict = fuzzer.evaluate_execution(
            state,
            event_mgr,
            last_input,
            observers,
            &exit_kind,
            true,
        );
        let ghost evaluated = (*fuzzer, *state, *event_mgr);
        assert(Z::may_evaluate(
            (pre.1, pre.2, pre.3),
            last_input,
            pre.4,
            exit_kind,
            true,
            evaluated,
            verdict,
        ));
        if let Err(e) = verdict {
            return Err(e);
        }
        let ack = self.mutator.post_exec(state, self.current_corpus_id);
        proof {
            let told = (self.mutator, *state);
            assert(M::may_post_exec((pre.0.mutator, evaluated.1), pre.0.current_corpus_id, told, ack));
        }
        if let Err(e) = ack {
            return Err(e);
        }
        if self.testcases_done == usize::MAX {
            return Err(Error::illegal_state());
        }
        self.testcases_done += 1;
        Ok(())
    }

    fn deinit(
        &mut self,
        fuzzer: &mut Z,
        state: &mut StdState<I>,
        event_mgr: &mut EM,
        observers: &mut OT,
    ) -> (r: Result<(), Error>) {
        self.current_corpus_id = None;
        Ok(())
    }
}

/// The world that a step works on: the stage together with the parts of the
/// shared state.
pub open spec fn step_world<EM, I, OT, M, Z>(
    stage: StdMutationalPushStage<EM, I, OT, M, Z>,
    shared: PushStageSharedState<EM, OT, StdState<I>, Z>,
) -> PushWorld<EM, I, OT, M, Z> {
    (stage, shared.fuzzer, shared.state, shared.event_mgr, shared.observers)
}

/// The stage of `world` with the rest of `world` put back into it as its
/// shared state, as `end_of_iter` does at the end of a step.
pub open spec fn put_back<EM, I, OT, M, Z>(world: PushWorld<EM, I, OT, M, Z>, errored: bool) -> StdMutationalPushStage<
    EM,
    I,
    OT,
    M,
    Z,
> {
    StdMutationalPushStage {
        psh: world.0.psh.ended(
            PushStageSharedState {
                state: world.2,
                fuzzer: world.1,
                event_mgr: world.3,
                observers: world.4,
            },
            errored,
        ),
        ..world.0
    }
}

/// The first half of a step of `next_std`, which takes the shared state out
/// of the stage. A stage with an input in flight takes the report on it, as
/// `post_exec` does, with the input and the exit kind that the helper holds.
/// A stage that has not started starts a round, as `init` does, and is
/// initialized from then on.
pub open spec fn next_first_half<
    EM,
    I,
    OT,
    M: Mutator<I, StdState<I>>,
    Z: HasScheduler<StdState<I>> + ExecutionProcessor<EM, I, OT, StdState<I>>,
>(
    pre: StdMutationalPushStage<EM, I, OT, M, Z>,
    stepped: PushWorld<EM, I, OT, M, Z>,
    step: Result<(), Error>,
) -> bool {
    let shared = pre.psh.shared_state->0;
    if pre.psh.initialized {
        mutational_post_exec(
            step_world(
                StdMutationalPushStage {
                    psh: PushStageHelper { shared_state: None, current_input: None, ..pre.psh },
                    ..pre
                },
                shared,
            ),
            pre.psh.current_input->0,
            pre.psh.exit_kind->0,
            stepped,
            step,
        )
    } else {
        exists|started: PushWorld<EM, I, OT, M, Z>|
            {
                &&& #[trigger] mutational_init(
                    step_world(
                        StdMutationalPushStage {
                            psh: PushStageHelper { shared_state: None, ..pre.psh },
                            ..pre
                        },
                        shared,
                    ),
                    started,
                    step,
                )
                &&& stepped == if step is Ok {
                    (
                        StdMutationalPushStage {
                            psh: PushStageHelper { initialized: true, ..started.0.psh },
                            ..started.0
                        },
                        started.1,
                        started.2,
                        started.3,
                        started.4,
                    )
                } else {
                    started
                }
            }
    }
}

/// The second half of a step of `next_std`: the stage is asked for its next
/// input, as `pre_exec` does. An answer is handed on, with the exit kind of
/// the last run forgotten. Without one the round is over: the stage forgets
/// the input in flight and its corpus entry and is no longer initialized,
/// and the manager may report progress; an error of the report is the
/// result, and marks the step as failed. Either way the shared state is put
/// back.
pub open spec fn next_second_half<
    EM: ProgressReporter<StdState<I>>,
    I: Clone,
    OT,
    M: Mutator<I, StdState<I>>,
    Z,
>(
    stepped: PushWorld<EM, I, OT, M, Z>,
    post: StdMutationalPushStage<EM, I, OT, M, Z>,
    r: Option<Result<I, Error>>,
) -> bool {
    exists|asked: PushWorld<EM, I, OT, M, Z>, next: Option<Result<I, Error>>|
        {
            &&& #[trigger] mutational_pre_exec(stepped, asked, next)
            &&& match next {
                Some(_) => r == next && post == put_back(
                    (
                        StdMutationalPushStage {
                            psh: PushStageHelper { exit_kind: None, ..asked.0.psh },
                            ..asked.0
                        },
                        asked.1,
                        asked.2,
                        asked.3,
                        asked.4,
                    ),
                    false,
                ),
                None => exists|reported: (EM, StdState<I>), report: Result<(), Error>|
                    {
                        &&& #[trigger] EM::may_report(
                            (asked.3, asked.2),
                            STATS_TIMEOUT_DEFAULT_SECS,
                            reported,
                            report,
                        )
                        &&& r == match report {
                            Err(e) => Some(Err::<I, Error>(e)),
                            Ok(()) => None::<Result<I, Error>>,
                        }
                        &&& post == put_back(
                            (
                                StdMutationalPushStage {
                                    current_corpus_id: None,
                                    psh: PushStageHelper {
                                        current_input: None,
                                        initialized: false,
                                        ..asked.0.psh
                                    },
                                    ..asked.0
                                },
                                asked.1,
                                reported.1,
                                reported.0,
                                asked.4,
                            ),
                            report is Err,
                        )
                    },
            }
        }
}

/// One step of `next_std`: the first half, and, unless it failed, the
/// second. A failure of the first half is the result, with the shared state
/// put back and the stage sent back to its start.
pub open spec fn next_std_step<
    EM: ProgressReporter<StdState<I>>,
    I: Clone,
    OT,
    M: Mutator<I, StdState<I>>,
    Z: HasScheduler<StdState<I>> + ExecutionProcessor<EM, I, OT, StdState<I>>,
>(
    pre: StdMutationalPushStage<EM, I, OT, M, Z>,
    post: StdMutationalPushStage<EM, I, OT, M, Z>,
    r: Option<Result<I, Error>>,
) -> bool {
    exists|stepped: PushWorld<EM, I, OT, M, Z>, step: Result<(), Error>|
        {
            &&& #[trigger] next_first_half(pre, stepped, step)
            &&& match step {
                Err(e) => r == Some(Err::<I, Error>(e)) && post == put_back(stepped, true),
                Ok(()) => next_second_half(stepped, post, r),
            }
        }
}

impl<EM, I, OT, M, Z> StdMutationalPushStage<EM, I, OT, M, Z> where
    EM: ProgressReporter<StdState<I>>,
    I: Clone,
    M: Mutator<I, StdState<I>>,
    Z: HasScheduler<StdState<I>> + ExecutionProcessor<EM, I, OT, StdState<I>>,
 {
    /// Whether the stage is ready for a step: the shared state rests in the
    /// helper, and a stage with an input in flight knows that input and how
    /// its run ended.
    pub open spec fn ready(self) -> bool {
        &&& self.psh.shared_state is Some
        &&& self.psh.initialized ==> self.psh.current_input is Some && self.psh.exit_kind is Some
    }

    /// One step of the stage as an iterator: reports on the input handed
    /// out last, or starts a round, and hands out the next input, or `None`
    /// when the round is over: see `next_std_step`. On every path the shared
    /// state is back in the helper when the step returns.
    pub fn next_std(&mut self) -> (r: Option<Result<I, Error>>)
        requires
            old(self).ready(),
        ensures
            next_std_step(*old(self), *final(self), r),
            final(self).psh.shared_state is Some,
    {
        let ghost pre = *self;
        let mut shared_state = self.psh.take_shared_state().unwrap();
        let step_success = if self.psh.initialized {
            // We already ran once
            let last_input = self.psh.current_input.take().unwrap();
            let exit_kind = self.psh.exit_kind().unwrap();
            let ghost taken = step_world(*self, shared_state);
            let reported = self.post_exec(
                &mut shared_state.fuzzer,
                &mut shared_state.state,
                &mut shared_state.event_mgr,
                &mut shared_state.observers,
                last_input,
                exit_kind,
            );
            assert(mutational_post_exec(
                taken,
                last_input,
                exit_kind,
                step_world(*self, shared_state),
                reported,
            ));
            reported
        } else {
            let ghost taken = step_world(*self, shared_state);
            let started = self.init(
                &mut shared_state.fuzzer,
                &mut shared_state.state,
                &mut shared_state.event_mgr,
                &mut shared_state.observers,
            );
            assert(mutational_init(taken, step_world(*self, shared_state), started));
            if started.is_ok() {
                self.psh.initialized = true;
            }
            started
        };
        let ghost stepped = step_world(*self, shared_state);
        assert(next_first_half(pre, stepped, step_success));
        if let Err(err) = step_success {
            self.psh.end_of_iter(shared_state, true);
            return Some(Err(err));
        }
        let ret = self.pre_exec(
            &mut shared_state.fuzzer,
            &mut shared_state.state,
            &mut shared_state.event_mgr,
            &mut shared_state.observers,
        );
        let ghost asked = step_world(*self, shared_state);
        assert(mutational_pre_exec(stepped, asked, ret));
        if ret.is_none() {
            // We're done.
            self.psh.current_input = None;
            self.psh.initialized = false;
            if let Err(err) = self.deinit(
                &mut shared_state.fuzzer,
                &mut shared_state.state,
                &mut shared_state.event_mgr,
                &mut shared_state.observers,
            ) {
                self.psh.end_of_iter(shared_state, true);
                return Some(Err(err));
            }
            let report = shared_state.event_mgr.maybe_report_progress(
                &mut shared_state.state,
                STATS_TIMEOUT_DEFAULT_SECS,
            );
            proof {
                let reported = (shared_state.event_mgr, shared_state.state);
                assert(EM::may_report((asked.3, asked.2), STATS_TIMEOUT_DEFAULT_SECS, reported, report));
            }
            if let Err(err) = report {
                self.psh.end_of_iter(shared_state, true);
                return Some(Err(err));
            }
        } else {
            self.psh.reset_exit_kind();
        }
        self.psh.end_of_iter(shared_state, false);
        ret
    }

    /// The next item of the stage as an iterator: one step of `next_std`.
    pub fn next(&mut self) -> (r: Option<Result<I, Error>>)
        requires
            old(self).ready(),
        ensures
            next_std_step(*old(self), *final(self), r),
            final(self).psh.shared_state is Some,
    {
        self.next_std()
    }
}

/// A round that has started has all its inputs still to come, and they are
/// between one and the maximum.
pub proof fn lemma_round_starts_full<EM, I, OT, M, Z: HasScheduler<StdState<I>>>(
    pre: PushWorld<EM, I, OT, M, Z>,
    post: PushWorld<EM, I, OT, M, Z>,
    r: Result<(), Error>,
)
    requires
        mutational_init(pre, post, r),
        r is Ok,
    ensures
        post.0.testcases_done == 0,
        post.0.inputs_left() == post.0.testcases_to_do,
        1 <= post.0.testcases_to_do <= DEFAULT_MUTATIONAL_MAX_ITERATIONS,
        post.0.current_corpus_id is Some,
{
}

/// The stage hands out an input, or an error in place of one, exactly
/// while inputs of the round are still to come, and asking for an input
/// does not change how many are.
pub proof fn lemma_hands_out_while_inputs_left<EM, I: Clone, OT, M: Mutator<I, StdState<I>>, Z>(
    pre: PushWorld<EM, I, OT, M, Z>,
    post: PushWorld<EM, I, OT, M, Z>,
    r: Option<Result<I, Error>>,
)
    requires
        mutational_pre_exec(pre, post, r),
    ensures
        r is None <==> pre.0.inputs_left() == 0,
        post.0.inputs_left() == pre.0.inputs_left(),
        post.0.testcases_done == pre.0.testcases_done,
        post.0.testcases_to_do == pre.0.testcases_to_do,
{
}

/// Each report that succeeds counts one input as done, so that a round of
/// `testcases_to_do` inputs is over after that many reports.
pub proof fn lemma_report_counts_one<
    EM,
    I,
    OT,
    M: Mutator<I, StdState<I>>,
    Z: ExecutionProcessor<EM, I, OT, StdState<I>>,
>(
    pre: PushWorld<EM, I, OT, M, Z>,
    last_input: I,
    exit_kind: ExitKind,
    post: PushWorld<EM, I, OT, M, Z>,
    r: Result<(), Error>,
)
    requires
        mutational_post_exec(pre, last_input, exit_kind, post, r),
    ensures
        post.0.testcases_to_do == pre.0.testcases_to_do,
        r is Ok ==> post.0.testcases_done == pre.0.testcases_done + 1,
        r is Ok && pre.0.inputs_left() > 0 ==> post.0.inputs_left() == pre.0.inputs_left() - 1,
        r is Err ==> post.0.testcases_done == pre.0.testcases_done,
{
}

/// When a step of `next_std` answers `None`, the round is over: the stage is
/// no longer initialized, holds no input in flight, and has forgotten its
/// corpus entry; the shared state is back in the helper.
pub proof fn lemma_round_over<
    EM: ProgressReporter<StdState<I>>,
    I: Clone,
    OT,
    M: Mutator<I, StdState<I>>,
    Z: HasScheduler<StdState<I>> + ExecutionProcessor<EM, I, OT, StdState<I>>,
>(
    pre: StdMutationalPushStage<EM, I, OT, M, Z>,
    post: StdMutationalPushStage<EM, I, OT, M, Z>,
    r: Option<Result<I, Error>>,
)
    requires
        next_std_step(pre, post, r),
        r is None,
    ensures
        !post.psh.initialized,
        !post.psh.errored,
        post.psh.current_input is None,
        post.current_corpus_id is None,
        post.psh.shared_state is Some,
        post.inputs_left() == 0,
{
    let (stepped, step): (PushWorld<EM, I, OT, M, Z>, Result<(), Error>) = choose|
        stepped: PushWorld<EM, I, OT, M, Z>,
        step: Result<(), Error>,
    |
        {
            &&& #[trigger] next_first_half(pre, stepped, step)
            &&& match step {
                Err(e) => r == Some(Err::<I, Error>(e)) && post == put_back(stepped, true),
                Ok(()) => next_second_half(stepped, post, r),
            }
        };
    let (asked, next): (PushWorld<EM, I, OT, M, Z>, Option<Result<I, Error>>) = choose|
        asked: PushWorld<EM, I, OT, M, Z>,
        next: Option<Result<I, Error>>,
    |
        {
            &&& #[trigger] mutational_pre_exec(stepped, asked, next)
            &&& next is None
            &&& exists|reported: (EM, StdState<I>), report: Result<(), Error>|
                {
                    &&& #[trigger] EM::may_report(
                        (asked.3, asked.2),
                        STATS_TIMEOUT_DEFAULT_SECS,
                        reported,
                        report,
                    )
                    &&& report is Ok
                    &&& post == put_back(
                        (
                            StdMutationalPushStage {
                                current_corpus_id: None,
                                psh: PushStageHelper {
                                    current_input: None,
                                    initialized: false,
                                    ..asked.0.psh
                                },
                                ..asked.0
                            },
                            asked.1,
                            reported.1,
                            reported.0,
                            asked.4,
                        ),
                        false,
                    )
                }
        };
    lemma_hands_out_while_inputs_left(stepped, asked, next);
}

} // verus!
