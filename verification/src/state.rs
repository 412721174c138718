//! The state of one fuzzing worker.

use vstd::prelude::*;
use crate::corpus::{Corpus, CorpusId};
use crate::error::Error;
use crate::feedbacks::nautilus::NautilusChunksMetadata;
use crate::metadata::NamedMap;
use crate::stages::restart::{ExecutionCountRestartHelperMetadata, RetryCountRestartHelper};
use crate::stages::{HasCurrentStage, StageId};
use libafl_bolts::rands::{Rand, RomuDuoJrRand};

verus! {

/// The random number generator of `libafl_bolts` that the state owns. Verus
/// sees nothing inside it.
#[verifier::external_type_specification]
#[verifier::external_body]
pub struct ExRomuDuoJrRand(libafl_bolts::rands::RomuDuoJrRand);

/// Calls `RomuDuoJrRand::with_seed`. Nothing is claimed of the generator that
/// comes back.
#[verifier::external_body]
fn rand_with_seed(seed: u64) -> RomuDuoJrRand {
    RomuDuoJrRand::with_seed(seed)
}

/// Calls `Rand::below`, which scales the next 64-bit draw into the range
/// below `upper_bound_excl`. The bound must not be zero; the draw is below it.
#[verifier::external_body]
fn rand_below(rand: &mut RomuDuoJrRand, upper_bound_excl: usize) -> (r: usize)
    requires
        upper_bound_excl > 0,
    ensures
        r < upper_bound_excl,
{
    rand.below(upper_bound_excl)
}

/// The state-wide typed metadata: one slot per metadata type.
pub struct StateMetadata {
    /// The chunk store of the grammar feedback, if one was registered.
    pub nautilus_chunks: Option<NautilusChunksMetadata>,
}

/// The typed metadata that is told apart by a name as well: one map per
/// metadata type, so that several stages can each keep an entry of one type.
pub struct NamedMetadata {
    /// The retry budgets of the stages, by stage name.
    pub retry_count: NamedMap<RetryCountRestartHelper>,
    /// The execution counts at which stages started, by stage name.
    pub execution_count: NamedMap<ExecutionCountRestartHelperMetadata>,
}

/// Everything one fuzzing worker remembers between executions. A worker owns
/// its state and is the only one to touch it.
pub struct StdState<I> {
    /// The testcases kept so far.
    pub corpus: Corpus<I>,
    /// The source of randomness.
    pub rand: RomuDuoJrRand,
    /// How many times the target has been run.
    pub executions: u64,
    /// State-wide metadata, by type.
    pub metadata: StateMetadata,
    /// Metadata by type and name.
    pub named_metadata: NamedMetadata,
    /// The testcase that is being worked on.
    pub corpus_id: Option<CorpusId>,
    /// The stage of the tuple that is in progress.
    pub stage_idx: Option<StageId>,
    /// Whether the worker was asked to stop.
    pub stop_requested: bool,
}

impl<I> StdState<I> {
    /// A fresh state: empty corpus, no executions, no metadata, nothing in
    /// progress, no stop requested.
    pub fn new(seed: u64) -> (s: StdState<I>)
        ensures
            s.corpus.entries@.len() == 0,
            s.executions == 0,
            s.metadata.nautilus_chunks is None,
            forall|name: Seq<char>| s.named_metadata.retry_count.lookup(name) is None,
            forall|name: Seq<char>| s.named_metadata.execution_count.lookup(name) is None,
            s.corpus_id is None,
            s.stage_idx is None,
            !s.stop_requested,
    {
        StdState {
            corpus: Corpus::new(),
            rand: rand_with_seed(seed),
            executions: 0,
            metadata: StateMetadata { nautilus_chunks: None },
            named_metadata: NamedMetadata {
                retry_count: NamedMap::new(),
                execution_count: NamedMap::new(),
            },
            corpus_id: None,
            stage_idx: None,
            stop_requested: false,
        }
    }

    /// `self` after a draw from its random source: only the source differs.
    pub open spec fn same_but_rand(self, before: StdState<I>) -> bool {
        self == (StdState { rand: self.rand, ..before })
    }

    /// The corpus.
    pub fn corpus(&self) -> (r: &Corpus<I>)
        ensures
            *r == self.corpus,
    {
        &self.corpus
    }

    /// The corpus, for adding to it.
    pub fn corpus_mut(&mut self) -> (r: &mut Corpus<I>)
        ensures
            *r == old(self).corpus,
            *final(self) == (StdState { corpus: *final(r), ..*old(self) }),
    {
        &mut self.corpus
    }

    /// How many times the target has been run.
    pub fn executions(&self) -> (r: &u64)
        ensures
            *r == self.executions,
    {
        &self.executions
    }

    /// The execution counter, for the executor to advance.
    pub fn executions_mut(&mut self) -> (r: &mut u64)
        ensures
            *r == old(self).executions,
            *final(self) == (StdState { executions: *final(r), ..*old(self) }),
    {
        &mut self.executions
    }

    /// A number below `upper_bound_excl`, drawn from the state's random
    /// source. Nothing but the source changes.
    pub fn rand_below(&mut self, upper_bound_excl: usize) -> (r: usize)
        requires
            upper_bound_excl > 0,
        ensures
            r < upper_bound_excl,
            final(self).same_but_rand(*old(self)),
    {
        rand_below(&mut self.rand, upper_bound_excl)
    }

    /// Records that testcase `id` is being worked on.
    pub fn set_corpus_id(&mut self, id: CorpusId) -> (r: Result<(), Error>)
        ensures
            r is Ok,
            *final(self) == (StdState { corpus_id: Some(id), ..*old(self) }),
    {
        self.corpus_id = Some(id);
        Ok(())
    }

    /// Records that no testcase is being worked on.
    pub fn clear_corpus_id(&mut self) -> (r: Result<(), Error>)
        ensures
            r is Ok,
            *final(self) == (StdState { corpus_id: None, ..*old(self) }),
    {
        self.corpus_id = None;
        Ok(())
    }

    /// The testcase that is being worked on, if any.
    pub fn current_corpus_id(&self) -> (r: Result<Option<CorpusId>, Error>)
        ensures
            r == Ok::<Option<CorpusId>, Error>(self.corpus_id),
    {
        Ok(self.corpus_id)
    }

    /// Whether the worker was asked to stop.
    pub fn stop_requested(&self) -> (r: bool)
        ensures
            r == self.stop_requested,
    {
        self.stop_requested
    }

    /// Asks the worker to stop at the next stage boundary.
    pub fn request_stop(&mut self)
        ensures
            *final(self) == (StdState { stop_requested: true, ..*old(self) }),
    {
        self.stop_requested = true;
    }

    /// Forgets a stop request.
    pub fn discard_stop_request(&mut self)
        ensures
            *final(self) == (StdState { stop_requested: false, ..*old(self) }),
    {
        self.stop_requested = false;
    }
}

impl<I> HasCurrentStage for StdState<I> {
    open spec fn stage_in_progress(&self) -> Option<StageId> {
        self.stage_idx
    }

    fn set_current_stage_idx(&mut self, idx: StageId) -> (r: Result<(), Error>)
        ensures
            r is Ok,
            *final(self) == (StdState { stage_idx: Some(idx), ..*old(self) }),
    {
        self.stage_idx = Some(idx);
        Ok(())
    }

    fn clear_stage(&mut self) -> (r: Result<(), Error>)
        ensures
            r is Ok,
            *final(self) == (StdState { stage_idx: None, ..*old(self) }),
    {
        self.stage_idx = None;
        Ok(())
    }

    fn current_stage_idx(&self) -> (r: Result<Option<StageId>, Error>)
        ensures
            r == Ok::<Option<StageId>, Error>(self.stage_idx),
    {
        Ok(self.stage_idx)
    }

    fn on_restart(&mut self) -> (r: Result<(), Error>)
        ensures
            r is Ok,
            *final(self) == *old(self),
    {
        Ok(())
    }
}

} // verus!
