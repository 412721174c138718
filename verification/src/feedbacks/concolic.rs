//! The concolic feedback attaches the trace of a concolic run to the
//! testcase. It never finds a run interesting by itself, so it is used
//! together with a feedback that does.

use vstd::prelude::*;
use crate::corpus::Testcase;
use crate::error::Error;
use crate::executors::ExitKind;
use crate::feedbacks::Feedback;
use crate::observers::concolic::ConcolicObserver;
use crate::observers::{found_from, Handle, Handled, ObserverSet};

verus! {

/// The concolic feedback. It reads the trace from the observer that its
/// handle names.
pub struct ConcolicFeedback {
    /// The handle of the observer.
    pub observer_handle: Handle<ConcolicObserver>,
}

impl ConcolicFeedback {
    /// The feedback that reads from `observer`.
    pub fn from_observer(observer: &ConcolicObserver) -> (feedback: Self)
        ensures
            feedback.observer_handle.name@ == observer.name@,
    {
        ConcolicFeedback { observer_handle: observer.handle() }
    }

    /// The name of the feedback: that of its observer.
    pub fn name(&self) -> (name: &String)
        ensures
            *name == self.observer_handle.name,
    {
        self.observer_handle.name()
    }

    /// The last verdict of the feedback, which is always `false`.
    pub fn last_result(&self) -> (r: Result<bool, Error>)
        ensures
            r == Ok::<bool, Error>(false),
    {
        Ok(false)
    }

    /// The observer that the feedback reads from, if `observers` holds it.
    pub open spec fn observed(self, observers: ObserverSet) -> Option<ConcolicObserver> {
        found_from::<ConcolicObserver>(observers.observers@, self.observer_handle.name@, 0)
    }
}

impl<EM, I, S> Feedback<EM, I, ObserverSet, S> for ConcolicFeedback {
    /// No run is interesting to this feedback, and judging changes nothing.
    open spec fn may_judge(
        pre: (Self, S, EM),
        input: I,
        observers: ObserverSet,
        exit_kind: ExitKind,
        post: (Self, S, EM),
        r: Result<bool, Error>,
    ) -> bool {
        post == pre && r == Ok::<bool, Error>(false)
    }

    /// Where the observer set holds the feedback's observer, the testcase
    /// gets a copy of its trace as concolic metadata; else the testcase
    /// stays as it is. Nothing else changes, and the call succeeds.
    open spec fn may_append(
        pre: (Self, S, EM, Testcase<I>),
        observers: ObserverSet,
        post: (Self, S, EM, Testcase<I>),
        r: Result<(), Error>,
    ) -> bool {
        &&& r is Ok
        &&& post.0 == pre.0
        &&& post.1 == pre.1
        &&& post.2 == pre.2
        &&& post.3.input == pre.3.input
        &&& match pre.0.observed(observers) {
            Some(observer) => post.3.metadata.concolic is Some
                && post.3.metadata.concolic->0.buffer@ == observer.map@,
            None => post.3.metadata == pre.3.metadata,
        }
    }

    fn is_interesting(
        &mut self,
        state: &mut S,
        manager: &mut EM,
        input: &I,
        observers: &ObserverSet,
        exit_kind: &ExitKind,
    ) -> (r: Result<bool, Error>) {
        Ok(false)
    }

    fn append_metadata(
        &mut self,
        state: &mut S,
        manager: &mut EM,
        observers: &ObserverSet,
        testcase: &mut Testcase<I>,
    ) -> (r: Result<(), Error>) {
        match observers.get(&self.observer_handle) {
            Some(observer) => {
                let metadata = observer.create_metadata_from_current_map();
                let _ = testcase.metadata.insert_concolic(metadata);
            },
            None => {},
        }
        Ok(())
    }
}

/// Adding the concolic metadata again, with the same observers, leaves the
/// testcase holding the same trace: the feedback is idempotent on the
/// testcase's metadata.
pub proof fn lemma_append_twice_is_append_once<EM, I, S>(
    pre: (ConcolicFeedback, S, EM, Testcase<I>),
    observers: ObserverSet,
    once: (ConcolicFeedback, S, EM, Testcase<I>),
    twice: (ConcolicFeedback, S, EM, Testcase<I>),
    first: Result<(), Error>,
    second: Result<(), Error>,
)
    requires
        <ConcolicFeedback as Feedback<EM, I, ObserverSet, S>>::may_append(
            pre,
            observers,
            once,
            first,
        ),
        <ConcolicFeedback as Feedback<EM, I, ObserverSet, S>>::may_append(
            once,
            observers,
            twice,
            second,
        ),
    ensures
        first is Ok && second is Ok,
        twice.3.input == once.3.input,
        twice.3.metadata.concolic is Some <==> once.3.metadata.concolic is Some,
        once.3.metadata.concolic is Some ==> twice.3.metadata.concolic->0.buffer@
            == once.3.metadata.concolic->0.buffer@,
        (twice.0, twice.1, twice.2) == (once.0, once.1, once.2),
{
}

} // verus!
