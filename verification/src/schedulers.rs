//! What the core asks of a scheduler.

use vstd::prelude::*;
use crate::corpus::CorpusId;
use crate::error::Error;

verus! {

/// A scheduler picks the corpus entry to work on next.
pub trait Scheduler<S>: Sized {
    /// What one call of `next` may do to the scheduler and the state, and
    /// which entry it may pick.
    open spec fn may_pick(pre: (Self, S), post: (Self, S), r: Result<CorpusId, Error>) -> bool {
        true
    }

    /// Picks the corpus entry to work on next.
    fn next(&mut self, state: &mut S) -> (r: Result<CorpusId, Error>)
        ensures
            Self::may_pick((*old(self), *old(state)), (*final(self), *final(state)), r),
    ;
}

} // verus!
