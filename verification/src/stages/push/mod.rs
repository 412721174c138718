//! Push stages are driven from outside: instead of running the target
//! themselves, they hand out one input at a time and are told how its run
//! ended.

use vstd::prelude::*;
use crate::corpus::CorpusId;
use crate::error::Error;
use crate::executors::ExitKind;

pub mod mutational;

verus! {

/// What a push stage works on and shares with its driver.
pub struct PushStageSharedState<EM, OT, S, Z> {
    /// The state.
    pub state: S,
    /// The fuzzer.
    pub fuzzer: Z,
    /// The event manager.
    pub event_mgr: EM,
    /// The observers.
    pub observers: OT,
}

impl<EM, OT, S, Z> PushStageSharedState<EM, OT, S, Z> {
    /// Bundles the four parts.
    pub fn new(fuzzer: Z, observers: OT, state: S, event_mgr: EM) -> (shared: Self)
        ensures
            shared == (PushStageSharedState { state, fuzzer, event_mgr, observers }),
    {
        PushStageSharedState { state, fuzzer, event_mgr, observers }
    }
}

/// The bookkeeping of a push stage between two inputs. The shared state
/// rests here while the driver runs the target; the stage takes it out for
/// the length of one step and puts it back before the step returns.
pub struct PushStageHelper<EM, I, OT, S, Z> {
    /// Whether the stage was initialized and has an input in flight.
    pub initialized: bool,
    /// The shared state, unless a step holds it.
    pub shared_state: Option<PushStageSharedState<EM, OT, S, Z>>,
    /// Whether the last step ended in an error.
    pub errored: bool,
    /// The corpus entry for the next round, if the driver chose one.
    pub current_corpus_id: Option<CorpusId>,
    /// The input that was handed out last.
    pub current_input: Option<I>,
    /// How the run of that input ended, once the driver has said so.
    pub exit_kind: Option<ExitKind>,
}

impl<EM, I, OT, S, Z> PushStageHelper<EM, I, OT, S, Z> {
    /// A helper for a stage that has not started.
    pub fn new(shared_state: Option<PushStageSharedState<EM, OT, S, Z>>, exit_kind: Option<ExitKind>) -> (helper:
        Self)
        ensures
            helper == (PushStageHelper::<EM, I, OT, S, Z> {
                initialized: false,
                shared_state,
                errored: false,
                current_corpus_id: None,
                current_input: None,
                exit_kind,
            }),
    {
        PushStageHelper {
            initialized: false,
            shared_state,
            errored: false,
            current_corpus_id: None,
            current_input: None,
            exit_kind,
        }
    }

    /// Puts the shared state back.
    pub fn set_shared_state(&mut self, shared_state: PushStageSharedState<EM, OT, S, Z>)
        ensures
            *final(self) == (PushStageHelper { shared_state: Some(shared_state), ..*old(self) }),
    {
        self.shared_state = Some(shared_state);
    }

    /// Takes the shared state out, if it is there.
    pub fn take_shared_state(&mut self) -> (shared: Option<PushStageSharedState<EM, OT, S, Z>>)
        ensures
            shared == old(self).shared_state,
            *final(self) == (PushStageHelper { shared_state: None, ..*old(self) }),
    {
        self.shared_state.take()
    }

    /// How the last run ended, if the driver has said so.
    pub fn exit_kind(&self) -> (kind: Option<ExitKind>)
        ensures
            kind == self.exit_kind,
    {
        self.exit_kind
    }

    /// Records how the last run ended.
    pub fn set_exit_kind(&mut self, exit_kind: ExitKind)
        ensures
            *final(self) == (PushStageHelper { exit_kind: Some(exit_kind), ..*old(self) }),
    {
        self.exit_kind = Some(exit_kind);
    }

    /// Forgets how the last run ended.
    pub fn reset_exit_kind(&mut self)
        ensures
            *final(self) == (PushStageHelper { exit_kind: None, ..*old(self) }),
    {
        self.exit_kind = None;
    }

    /// The helper after a step: see `end_of_iter`.
    pub open spec fn ended(self, shared_state: PushStageSharedState<EM, OT, S, Z>, errored: bool) -> Self {
        PushStageHelper {
            shared_state: Some(shared_state),
            errored,
            current_corpus_id: None,
            initialized: self.initialized && !errored,
            ..self
        }
    }

    /// Ends a step: the shared state is put back on every path, the outcome
    /// is recorded, and an error sends the stage back to its start.
    pub fn end_of_iter(&mut self, shared_state: PushStageSharedState<EM, OT, S, Z>, errored: bool)
        ensures
            *final(self) == old(self).ended(shared_state, errored),
    {
        self.set_shared_state(shared_state);
        self.errored = errored;
        self.current_corpus_id = None;
        if errored {
            self.initialized = false;
        }
    }
}

/// A stage that hands out inputs on demand. Its driver calls `init` once,
/// then `pre_exec` for the next input, runs it, and reports with
/// `post_exec`, until `pre_exec` answers `None`; then it calls `deinit`.
pub trait PushStage<EM, OT, S, Z>: Sized {
    /// The inputs that the stage hands out.
    type Input;

    /// A bound on the inputs still to come in this round. A stage hands out
    /// an input only while the bound is positive, and each input that was
    /// run and reported lowers it, so that every round ends.
    spec fn remaining(self) -> nat;

    /// What `set_current_corpus_id` may do to the stage.
    open spec fn may_set_corpus_id(pre: Self, corpus_id: CorpusId, post: Self) -> bool {
        true
    }

    /// What one call of `init` may do to the stage, the fuzzer, the state,
    /// the manager and the observers.
    open spec fn may_init(pre: (Self, Z, S, EM, OT), post: (Self, Z, S, EM, OT), r: Result<
        (),
        Error,
    >) -> bool {
        true
    }

    /// What one call of `pre_exec` may do, and which input it may hand out.
    open spec fn may_pre_exec(pre: (Self, Z, S, EM, OT), post: (Self, Z, S, EM, OT), r: Option<
        Result<Self::Input, Error>,
    >) -> bool {
        true
    }

    /// What one call of `post_exec` may do when told that `last_input` ended
    /// with `exit_kind`.
    open spec fn may_post_exec(
        pre: (Self, Z, S, EM, OT),
        last_input: Self::Input,
        exit_kind: ExitKind,
        post: (Self, Z, S, EM, OT),
        r: Result<(), Error>,
    ) -> bool {
        true
    }

    /// What one call of `deinit` may do.
    open spec fn may_deinit(pre: (Self, Z, S, EM, OT), post: (Self, Z, S, EM, OT), r: Result<
        (),
        Error,
    >) -> bool {
        true
    }

    /// Chooses the corpus entry of the next round.
    fn set_current_corpus_id(&mut self, corpus_id: CorpusId)
        ensures
            Self::may_set_corpus_id(*old(self), corpus_id, *final(self)),
    ;

    /// Starts a round.
    fn init(&mut self, fuzzer: &mut Z, state: &mut S, event_mgr: &mut EM, observers: &mut OT) -> (r:
        Result<(), Error>)
        ensures
            Self::may_init(
                (*old(self), *old(fuzzer), *old(state), *old(event_mgr), *old(observers)),
                (*final(self), *final(fuzzer), *final(state), *final(event_mgr), *final(observers)),
                r,
            ),
    ;

    /// Hands out the next input, or `None` when the round is over.
    fn pre_exec(&mut self, fuzzer: &mut Z, state: &mut S, event_mgr: &mut EM, observers: &mut OT) -> (r:
        Option<Result<Self::Input, Error>>)
        ensures
            Self::may_pre_exec(
                (*old(self), *old(fuzzer), *old(state), *old(event_mgr), *old(observers)),
                (*final(self), *final(fuzzer), *final(state), *final(event_mgr), *final(observers)),
                r,
            ),
            final(self).remaining() <= old(self).remaining(),
            (r matches Some(Ok(_))) ==> final(self).remaining() > 0,
    ;

    /// Takes the report on the input that was handed out last.
    fn post_exec(
        &mut self,
        fuzzer: &mut Z,
        state: &mut S,
        event_mgr: &mut EM,
        observers: &mut OT,
        last_input: Self::Input,
        exit_kind: ExitKind,
    ) -> (r: Result<(), Error>)
        ensures
            Self::may_post_exec(
                (*old(self), *old(fuzzer), *old(state), *old(event_mgr), *old(observers)),
                last_input,
                exit_kind,
                (*final(self), *final(fuzzer), *final(state), *final(event_mgr), *final(observers)),
                r,
            ),
            r is Ok && old(self).remaining() > 0 ==> final(self).remaining() < old(self).remaining(),
    ;

    /// Ends a round.
    fn deinit(&mut self, fuzzer: &mut Z, state: &mut S, event_mgr: &mut EM, observers: &mut OT) -> (r:
        Result<(), Error>)
        ensures
            Self::may_deinit(
                (*old(self), *old(fuzzer), *old(state), *old(event_mgr), *old(observers)),
                (*final(self), *final(fuzzer), *final(state), *final(event_mgr), *final(observers)),
                r,
            ),
    ;
}

} // verus!
