//! A stage made of a closure.

use vstd::prelude::*;
use crate::error::Error;
use crate::stages::restart::{clear_retry_step, no_retry_step, RetryCountRestartHelper};
use crate::stages::{restartable_run, Stage};
use crate::state::StdState;
use core::marker::PhantomData;

verus! {

/// The prefix by which closure stages are commonly named.
pub const CLOSURE_STAGE_NAME: &'static str = "closure";

/// A stage that calls a closure. Its closure can be called on every fuzzer,
/// executor, state and manager.
pub struct ClosureStage<CB, E, EM, I, Z> where
    CB: Fn(&mut Z, &mut E, &mut StdState<I>, &mut EM) -> Result<(), Error>,
 {
    name: String,
    closure: CB,
    phantom: PhantomData<(E, EM, I, Z)>,
}

impl<CB, E, EM, I, Z> ClosureStage<CB, E, EM, I, Z> where
    CB: Fn(&mut Z, &mut E, &mut StdState<I>, &mut EM) -> Result<(), Error>,
 {
    #[verifier::type_invariant]
    spec fn callable(self) -> bool {
        Self::always_callable(self.closure)
    }

    /// Whether `closure` asks nothing of its arguments.
    pub open spec fn always_callable(closure: CB) -> bool {
        forall|fuzzer: &mut Z, executor: &mut E, state: &mut StdState<I>, manager: &mut EM|
            call_requires(closure, (fuzzer, executor, state, manager))
    }

    /// The name under which the stage keeps its restart progress.
    pub closed spec fn name_of(self) -> Seq<char> {
        self.name@
    }

    /// The closure of the stage.
    pub closed spec fn closure_of(self) -> CB {
        self.closure
    }

    /// A stage that calls `closure`. It keeps its restart progress under
    /// `name`, so the stages that work on one state need names of their own.
    pub fn new(closure: CB, name: String) -> (stage: Self)
        requires
            Self::always_callable(closure),
        ensures
            stage.name_of() == name@,
            stage.closure_of() == closure,
    {
        ClosureStage { name, closure, phantom: PhantomData }
    }

    /// The name under which the stage keeps its restart progress.
    pub fn name(&self) -> (name: &String)
        ensures
            name@ == self.name_of(),
    {
        &self.name
    }
}

impl<CB, E, EM, I, Z> Stage<E, EM, StdState<I>, Z> for ClosureStage<CB, E, EM, I, Z> where
    CB: Fn(&mut Z, &mut E, &mut StdState<I>, &mut EM) -> Result<(), Error>,
 {
    /// A closure has no restart safety: it gets one run per round.
    open spec fn may_restart(pre: (Self, StdState<I>), post: (Self, StdState<I>), r: Result<
        bool,
        Error,
    >) -> bool {
        post.0 == pre.0 && no_retry_step(pre.0.name_of(), pre.1, post.1, r)
    }

    open spec fn may_clear(pre: (Self, StdState<I>), post: (Self, StdState<I>), r: Result<
        (),
        Error,
    >) -> bool {
        post.0 == pre.0 && clear_retry_step(pre.0.name_of(), pre.1, post.1, r)
    }

    /// `perform` leaves the stage as it is. What the closure does to the
    /// other four is told by the closure's own contract: see `perform`.
    open spec fn may_perform(
        pre: (Self, Z, E, StdState<I>, EM),
        post: (Self, Z, E, StdState<I>, EM),
        r: Result<(), Error>,
    ) -> bool {
        post.0 == pre.0
    }

    fn should_restart(&mut self, state: &mut StdState<I>) -> (r: Result<bool, Error>) {
        RetryCountRestartHelper::no_retry(state, self.name.as_str())
    }

    fn clear_progress(&mut self, state: &mut StdState<I>) -> (r: Result<(), Error>) {
        RetryCountRestartHelper::clear_progress(state, self.name.as_str())
    }

    fn perform(
        &mut self,
        fuzzer: &mut Z,
        executor: &mut E,
        state: &mut StdState<I>,
        manager: &mut EM,
    ) -> (r: Result<(), Error>)
        ensures
            exists|z: &mut Z, e: &mut E, s: &mut StdState<I>, m: &mut EM|
                {
                    &&& #[trigger] call_ensures(old(self).closure_of(), (z, e, s, m), r)
                    &&& *z == *old(fuzzer) && *final(z) == *final(fuzzer)
                    &&& *e == *old(executor) && *final(e) == *final(executor)
                    &&& *s == *old(state) && *final(s) == *final(state)
                    &&& *m == *old(manager) && *final(m) == *final(manager)
                },
    {
        proof {
            use_type_invariant(&*self);
        }
        assert(old(self).closure_of() == self.closure);
        let r = (self.closure)(fuzzer, executor, state, manager);
        assert(*self == *old(self));
        r
    }
}

/// A closure stage does not call its closure while the state works on no
/// corpus entry: a restartable run then fails with `IllegalState` when the
/// stage is asked whether it should run, and the stage, the fuzzer, the
/// executor and the manager stay as they are.
pub proof fn lemma_closure_needs_corpus_entry<CB, E, EM, I, Z>(
    pre: (ClosureStage<CB, E, EM, I, Z>, Z, E, StdState<I>, EM),
    post: (ClosureStage<CB, E, EM, I, Z>, Z, E, StdState<I>, EM),
    r: Result<(), Error>,
) where CB: Fn(&mut Z, &mut E, &mut StdState<I>, &mut EM) -> Result<(), Error>
    requires
        restartable_run::<ClosureStage<CB, E, EM, I, Z>, E, EM, StdState<I>, Z>(pre, post, r),
        pre.3.corpus_id is None,
    ensures
        r == Err::<(), Error>(Error::IllegalState),
        post.0 == pre.0,
        post.1 == pre.1,
        post.2 == pre.2,
        post.4 == pre.4,
        post.3.corpus_id is None,
{
}

} // verus!
