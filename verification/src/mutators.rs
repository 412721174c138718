//! What the core asks of a mutator.

use vstd::prelude::*;
use crate::corpus::CorpusId;
use crate::error::Error;

verus! {

/// Whether a mutator changed the input.
#[derive(Clone, Copy, Debug, PartialEq, Eq, Hash, Structural)]
pub enum MutationResult {
    /// The input was changed.
    Mutated,
    /// The input was left as it was.
    Skipped,
}

/// A mutator changes inputs in place and is told how each run went.
pub trait Mutator<I, S>: Sized {
    /// What one call of `mutate` may do to the mutator, the state and the
    /// input.
    open spec fn may_mutate(pre: (Self, S, I), post: (Self, S, I), r: Result<
        MutationResult,
        Error,
    >) -> bool {
        true
    }

    /// What one call of `post_exec` for `corpus_id` may do to the mutator and
    /// the state.
    open spec fn may_post_exec(
        pre: (Self, S),
        corpus_id: Option<CorpusId>,
        post: (Self, S),
        r: Result<(), Error>,
    ) -> bool {
        true
    }

    /// Mutates `input`.
    fn mutate(&mut self, state: &mut S, input: &mut I) -> (r: Result<MutationResult, Error>)
        ensures
            Self::may_mutate(
                (*old(self), *old(state), *old(input)),
                (*final(self), *final(state), *final(input)),
                r,
            ),
    ;

    /// Tells the mutator that the input it last produced has been run and
    /// evaluated.
    fn post_exec(&mut self, state: &mut S, corpus_id: Option<CorpusId>) -> (r: Result<(), Error>)
        ensures
            Self::may_post_exec(
                (*old(self), *old(state)),
                corpus_id,
                (*final(self), *final(state)),
                r,
            ),
    ;
}

} // verus!
