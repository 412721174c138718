//! Feedbacks judge a finished run and attach metadata to the testcases that
//! are kept.

use vstd::prelude::*;
use crate::corpus::{CorpusId, Testcase, TestcaseMetadata};
use crate::error::Error;
use crate::executors::ExitKind;
use crate::state::StdState;

pub mod concolic;
pub mod nautilus;

verus! {

/// A judge of runs. It answers whether a run was interesting, and adds its
/// metadata to the testcase of a run that is kept.
pub trait Feedback<EM, I, OT, S>: Sized {
    /// What one call of `is_interesting` may do to the feedback, the state
    /// and the manager, and what it may answer.
    open spec fn may_judge(
        pre: (Self, S, EM),
        input: I,
        observers: OT,
        exit_kind: ExitKind,
        post: (Self, S, EM),
        r: Result<bool, Error>,
    ) -> bool {
        true
    }

    /// What one call of `append_metadata` may do to the feedback, the state,
    /// the manager and the testcase.
    open spec fn may_append(
        pre: (Self, S, EM, Testcase<I>),
        observers: OT,
        post: (Self, S, EM, Testcase<I>),
        r: Result<(), Error>,
    ) -> bool {
        true
    }

    /// Answers whether the run of `input` that ended with `exit_kind` was
    /// interesting.
    fn is_interesting(
        &mut self,
        state: &mut S,
        manager: &mut EM,
        input: &I,
        observers: &OT,
        exit_kind: &ExitKind,
    ) -> (r: Result<bool, Error>)
        ensures
            Self::may_judge(
                (*old(self), *old(state), *old(manager)),
                *input,
                *observers,
                *exit_kind,
                (*final(self), *final(state), *final(manager)),
                r,
            ),
    ;

    /// Adds the metadata of this feedback to `testcase`, which the fuzzer
    /// has decided to keep.
    fn append_metadata(
        &mut self,
        state: &mut S,
        manager: &mut EM,
        observers: &OT,
        testcase: &mut Testcase<I>,
    ) -> (r: Result<(), Error>)
        ensures
            Self::may_append(
                (*old(self), *old(state), *old(manager), *old(testcase)),
                *observers,
                (*final(self), *final(state), *final(manager), *final(testcase)),
                r,
            ),
    ;
}

/// Two feedbacks as one: a run is interesting if either says so, and both
/// are always asked.
pub struct EagerOrFeedback<A, B> {
    /// The feedback that is asked first.
    pub first: A,
    /// The feedback that is asked second.
    pub second: B,
}

impl<A, B> EagerOrFeedback<A, B> {
    /// `first` and `second` as one feedback.
    pub fn new(first: A, second: B) -> (both: Self)
        ensures
            both == (EagerOrFeedback { first, second }),
    {
        EagerOrFeedback { first, second }
    }
}

impl<A, B, EM, I, OT, S> Feedback<EM, I, OT, S> for EagerOrFeedback<A, B> where
    A: Feedback<EM, I, OT, S>,
    B: Feedback<EM, I, OT, S>,
 {
    /// The first feedback judges, then the second, each once. An error of
    /// either is the result, and the first to fail ends the call. Else the
    /// answer is `true` where either answered `true`.
    open spec fn may_judge(
        pre: (Self, S, EM),
        input: I,
        observers: OT,
        exit_kind: ExitKind,
        post: (Self, S, EM),
        r: Result<bool, Error>,
    ) -> bool {
        exists|mid: (A, S, EM), a: Result<bool, Error>|
            {
                &&& #[trigger] A::may_judge(
                    (pre.0.first, pre.1, pre.2),
                    input,
                    observers,
                    exit_kind,
                    mid,
                    a,
                )
                &&& post.0.first == mid.0
                &&& match a {
                    Err(e) => r == Err::<bool, Error>(e) && post == (
                        EagerOrFeedback { first: mid.0, second: pre.0.second },
                        mid.1,
                        mid.2,
                    ),
                    Ok(a) => exists|b: Result<bool, Error>|
                        {
                            &&& #[trigger] B::may_judge(
                                (pre.0.second, mid.1, mid.2),
                                input,
                                observers,
                                exit_kind,
                                (post.0.second, post.1, post.2),
                                b,
                            )
                            &&& r == match b {
                                Err(e) => Err::<bool, Error>(e),
                                Ok(b) => Ok::<bool, Error>(a || b),
                            }
                        },
                }
            }
    }

    /// The first feedback adds its metadata, then the second, each exactly
    /// once, unless the first fails: its error ends the call.
    open spec fn may_append(
        pre: (Self, S, EM, Testcase<I>),
        observers: OT,
        post: (Self, S, EM, Testcase<I>),
        r: Result<(), Error>,
    ) -> bool {
        exists|mid: (A, S, EM, Testcase<I>), a: Result<(), Error>|
            {
                &&& #[trigger] A::may_append(
                    (pre.0.first, pre.1, pre.2, pre.3),
                    observers,
                    mid,
                    a,
                )
                &&& post.0.first == mid.0
                &&& match a {
                    Err(e) => r == Err::<(), Error>(e) && post == (
                        EagerOrFeedback { first: mid.0, second: pre.0.second },
                        mid.1,
                        mid.2,
                        mid.3,
                    ),
                    Ok(()) => B::may_append(
                        (pre.0.second, mid.1, mid.2, mid.3),
                        observers,
                        (post.0.second, post.1, post.2, post.3),
                        r,
                    ),
                }
            }
    }

    fn is_interesting(
        &mut self,
        state: &mut S,
        manager: &mut EM,
        input: &I,
        observers: &OT,
        exit_kind: &ExitKind,
    ) -> (r: Result<bool, Error>) {
        let ghost pre = (*self, *state, *manager);
        let a = self.first.is_interesting(state, manager, input, observers, exit_kind);
        let ghost mid = (self.first, *state, *manager);
        assert(A::may_judge((pre.0.first, pre.1, pre.2), *input, *observers, *exit_kind, mid, a));
        let a = match a {
            Ok(a) => a,
            Err(e) => {
                return Err(e);
            },
        };
        let b = self.second.is_interesting(state, manager, input, observers, exit_kind);
        proof {
            let post = (*self, *state, *manager);
            assert(B::may_judge(
                (pre.0.second, mid.1, mid.2),
                *input,
                *observers,
                *exit_kind,
                (post.0.second, post.1, post.2),
                b,
            ));
        }
        match b {
            Ok(b) => Ok(a || b),
            Err(e) => Err(e),
        }
    }

    fn append_metadata(
        &mut self,
        state: &mut S,
        manager: &mut EM,
        observers: &OT,
        testcase: &mut Testcase<I>,
    ) -> (r: Result<(), Error>) {
        let ghost pre = (*self, *state, *manager, *testcase);
        let a = self.first.append_metadata(state, manager, observers, testcase);
        let ghost mid = (self.first, *state, *manager, *testcase);
        assert(A::may_append((pre.0.first, pre.1, pre.2, pre.3), *observers, mid, a));
        if let Err(e) = a {
            return Err(e);
        }
        self.second.append_metadata(state, manager, observers, testcase)
    }
}

/// What the evaluation of one run with `feedback` does. The feedback
/// judges the run. An error is the result. A run that is not interesting
/// leaves the corpus as it is, and the answer is `(false, None)`. For an
/// interesting run a testcase is made of the input, the feedback adds its
/// metadata to it exactly once, and the testcase joins the corpus under the
/// id that is the answer; where adding the metadata fails the testcase is
/// dropped and the error is the result.
pub open spec fn evaluation<F: Feedback<EM, I, OT, StdState<I>>, EM, I, OT>(
    pre: (F, StdState<I>, EM),
    input: I,
    observers: OT,
    exit_kind: ExitKind,
    post: (F, StdState<I>, EM),
    r: Result<(bool, Option<CorpusId>), Error>,
) -> bool {
    exists|judged: (F, StdState<I>, EM), verdict: Result<bool, Error>|
        {
            &&& #[trigger] F::may_judge(pre, input, observers, exit_kind, judged, verdict)
            &&& match verdict {
                Err(e) => r == Err::<(bool, Option<CorpusId>), Error>(e) && post == judged,
                Ok(false) => r == Ok::<(bool, Option<CorpusId>), Error>((false, None)) && post
                    == judged,
                Ok(true) => exists|
                    appended: (F, StdState<I>, EM, Testcase<I>),
                    done: Result<(), Error>,
                |
                    {
                        &&& #[trigger] F::may_append(
                            (
                                judged.0,
                                judged.1,
                                judged.2,
                                Testcase {
                                    input: Some(input),
                                    metadata: TestcaseMetadata { concolic: None },
                                },
                            ),
                            observers,
                            appended,
                            done,
                        )
                        &&& post.0 == appended.0
                        &&& post.2 == appended.2
                        &&& match done {
                            Err(e) => r == Err::<(bool, Option<CorpusId>), Error>(e) && post.1
                                == appended.1,
                            Ok(()) => {
                                &&& r == Ok::<(bool, Option<CorpusId>), Error>(
                                    (
                                        true,
                                        Some(CorpusId(appended.1.corpus.entries@.len() as usize)),
                                    ),
                                )
                                &&& post.1.corpus.entries@ == appended.1.corpus.entries@.push(
                                    appended.3,
                                )
                                &&& post.1.rand == appended.1.rand
                                &&& post.1.executions == appended.1.executions
                                &&& post.1.metadata == appended.1.metadata
                                &&& post.1.named_metadata == appended.1.named_metadata
                                &&& post.1.corpus_id == appended.1.corpus_id
                                &&& post.1.stage_idx == appended.1.stage_idx
                                &&& post.1.stop_requested == appended.1.stop_requested
                            },
                        }
                    },
            }
        }
}

/// Evaluates one run with `feedback` and keeps the input if the run was
/// interesting: see `evaluation`.
pub fn evaluate<F: Feedback<EM, I, OT, StdState<I>>, EM, I, OT>(
    feedback: &mut F,
    state: &mut StdState<I>,
    manager: &mut EM,
    input: I,
    observers: &OT,
    exit_kind: &ExitKind,
) -> (r: Result<(bool, Option<CorpusId>), Error>)
    ensures
        evaluation(
            (*old(feedback), *old(state), *old(manager)),
            input,
            *observers,
            *exit_kind,
            (*final(feedback), *final(state), *final(manager)),
            r,
        ),
{
    let ghost pre = (*feedback, *state, *manager);
    let verdict = feedback.is_interesting(state, manager, &input, observers, exit_kind);
    let ghost judged = (*feedback, *state, *manager);
    assert(F::may_judge(pre, input, *observers, *exit_kind, judged, verdict));
    match verdict {
        Err(e) => {
            return Err(e);
        },
        Ok(false) => {
            return Ok((false, None));
        },
        Ok(true) => {},
    }
    let mut testcase = Testcase::new(input);
    let ghost fresh = testcase;
    let done = feedback.append_metadata(state, manager, observers, &mut testcase);
    let ghost appended = (*feedback, *state, *manager, testcase);
    assert(F::may_append((judged.0, judged.1, judged.2, fresh), *observers, appended, done));
    if let Err(e) = done {
        return Err(e);
    }
    match state.corpus.add(testcase) {
        Ok(id) => Ok((true, Some(id))),
        Err(e) => Err(e),
    }
}

} // verus!
