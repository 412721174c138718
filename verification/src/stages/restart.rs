//! Helpers with which a stage tracks its progress across restarts of the
//! worker.

use vstd::prelude::*;
use crate::corpus::CorpusId;
use crate::error::Error;
use crate::state::StdState;

verus! {

/// A `hashbrown::HashSet` of corpus ids, held as raw numbers. Verus sees
/// nothing inside it; its contents go by the name `skipped_ids`.
#[verifier::external_body]
pub struct SkippedSet {
    inner: hashbrown::HashSet<usize>,
}

/// The ids that a `SkippedSet` holds.
pub uninterp spec fn skipped_ids(set: SkippedSet) -> Set<usize>;

/// Calls `HashSet::new`: the new set is empty.
#[verifier::external_body]
fn skipped_new() -> (set: SkippedSet)
    ensures
        skipped_ids(set) == Set::<usize>::empty(),
{
    SkippedSet { inner: hashbrown::HashSet::new() }
}

/// Calls `HashSet::insert`: afterwards the set holds `id` besides what it
/// held, and the answer tells whether `id` was new.
#[verifier::external_body]
fn skipped_insert(set: &mut SkippedSet, id: usize) -> (fresh: bool)
    ensures
        skipped_ids(*final(set)) == skipped_ids(*old(set)).insert(id),
        fresh == !skipped_ids(*old(set)).contains(id),
{
    set.inner.insert(id)
}

/// Calls `HashSet::contains`: whether the set holds `id`.
#[verifier::external_body]
fn skipped_contains(set: &SkippedSet, id: usize) -> (r: bool)
    ensures
        r == skipped_ids(*set).contains(id),
{
    set.inner.contains(&id)
}

/// Walks the set with `HashSet::iter`: every id of the set comes out once,
/// in an order that is not fixed.
#[verifier::external_body]
fn skipped_to_vec(set: &SkippedSet) -> (ids: Vec<usize>)
    ensures
        ids@.to_set() == skipped_ids(*set),
        ids@.no_duplicates(),
{
    set.inner.iter().copied().collect()
}

/// What a `RetryCountRestartHelper` records.
pub struct RetryProgress {
    /// How many more times `should_restart` may be asked in this round;
    /// `None` while no round is in progress.
    pub tries_remaining: Option<usize>,
    /// The corpus ids that used up their budget.
    pub skipped: Set<usize>,
}

/// Progress which permits a fixed number of resumes per round of fuzzing.
/// Once a corpus entry has used them up, the stage never runs on it again.
pub struct RetryCountRestartHelper {
    tries_remaining: Option<usize>,
    skipped: SkippedSet,
}

impl View for RetryCountRestartHelper {
    type V = RetryProgress;

    closed spec fn view(&self) -> RetryProgress {
        RetryProgress { tries_remaining: self.tries_remaining, skipped: skipped_ids(self.skipped) }
    }
}

/// The progress with which a stage that was never asked before starts.
pub open spec fn fresh_progress(max_retries: usize) -> RetryProgress {
    RetryProgress {
        tries_remaining: Some((max_retries + 1) as usize),
        skipped: Set::<usize>::empty(),
    }
}

/// The progress after a round has ended cleanly: the count is forgotten, the
/// skipped ids stay.
pub open spec fn cleared_progress(progress: RetryProgress) -> RetryProgress {
    RetryProgress { tries_remaining: None, skipped: progress.skipped }
}

/// One call of `should_restart` for corpus entry `id`, on the recorded
/// progress `entry`: the progress recorded afterwards, and the answer.
///
/// The count starts at `max_retries + 1` and goes down by one. Asking at zero
/// is an error. The step that reaches zero marks `id` as skipped and answers
/// `false`; any other step answers whether `id` may still run.
pub open spec fn restart_outcome(entry: Option<RetryProgress>, id: usize, max_retries: usize) -> (
    Option<RetryProgress>,
    Result<bool, Error>,
) {
    let current = match entry {
        Some(progress) => progress,
        None => fresh_progress(max_retries),
    };
    let tries = match current.tries_remaining {
        Some(tries) => tries,
        None => (max_retries + 1) as usize,
    };
    if tries == 0 {
        (Some(current), Err(Error::IllegalState))
    } else if tries == 1 {
        (
            Some(RetryProgress { tries_remaining: Some(0), skipped: current.skipped.insert(id) }),
            Ok(false),
        )
    } else {
        (
            Some(
                RetryProgress {
                    tries_remaining: Some((tries - 1) as usize),
                    skipped: current.skipped,
                },
            ),
            Ok(!current.skipped.contains(id)),
        )
    }
}

/// The retry progress that `state` keeps under `name`.
pub open spec fn retry_entry<I>(state: StdState<I>, name: Seq<char>) -> Option<RetryProgress> {
    match state.named_metadata.retry_count.lookup(name) {
        Some(helper) => Some(helper@),
        None => None,
    }
}

/// `after` differs from `before` at most in the retry progress kept under
/// `name`.
pub open spec fn same_but_retry_entry<I>(
    after: StdState<I>,
    before: StdState<I>,
    name: Seq<char>,
) -> bool {
    &&& after.corpus == before.corpus
    &&& after.rand == before.rand
    &&& after.executions == before.executions
    &&& after.metadata == before.metadata
    &&& after.named_metadata.execution_count == before.named_metadata.execution_count
    &&& after.corpus_id == before.corpus_id
    &&& after.stage_idx == before.stage_idx
    &&& after.stop_requested == before.stop_requested
    &&& forall|other: Seq<char>|
        other != name ==> #[trigger] after.named_metadata.retry_count.lookup(other)
            == before.named_metadata.retry_count.lookup(other)
}

/// What `should_restart` answers on `state`: an error while no corpus entry
/// is current, else the answer of `restart_outcome`.
pub open spec fn restart_answer<I>(state: StdState<I>, name: Seq<char>, max_retries: usize) -> Result<
    bool,
    Error,
> {
    match state.corpus_id {
        None => Err(Error::IllegalState),
        Some(id) => restart_outcome(retry_entry(state, name), id.0, max_retries).1,
    }
}

/// The progress that `should_restart` leaves under `name`.
pub open spec fn restart_progress<I>(state: StdState<I>, name: Seq<char>, max_retries: usize) -> Option<
    RetryProgress,
> {
    match state.corpus_id {
        None => retry_entry(state, name),
        Some(id) => restart_outcome(retry_entry(state, name), id.0, max_retries).0,
    }
}

impl RetryCountRestartHelper {
    /// A helper with the given count and skipped ids, as read back from a
    /// persisted state.
    pub fn from_parts(tries_remaining: Option<usize>, skipped: &Vec<CorpusId>) -> (helper:
        RetryCountRestartHelper)
        ensures
            helper@.tries_remaining == tries_remaining,
            helper@.skipped == Set::new(
                |id: usize| exists|i: int| 0 <= i < skipped@.len() && skipped@[i].0 == id,
            ),
    {
        let mut set = skipped_new();
        let mut i: usize = 0;
        while i < skipped.len()
            invariant
                i <= skipped@.len(),
                skipped_ids(set) == Set::new(
                    |id: usize| exists|k: int| 0 <= k < i && skipped@[k].0 == id,
                ),
            decreases skipped@.len() - i,
        {
            let ghost before = skipped_ids(set);
            let _ = skipped_insert(&mut set, skipped[i].0);
            i += 1;
            assert(skipped_ids(set) =~= Set::new(
                |id: usize| exists|k: int| 0 <= k < i && skipped@[k].0 == id,
            )) by {
                assert forall|id: usize| #[trigger]
                    skipped_ids(set).contains(id) implies exists|k: int|
                    0 <= k < i && skipped@[k].0 == id by {
                    if before.contains(id) {
                        let k = choose|k: int| 0 <= k < i - 1 && skipped@[k].0 == id;
                        assert(0 <= k < i && skipped@[k].0 == id);
                    } else {
                        assert(skipped@[i - 1].0 == id);
                    }
                }
            }
        }
        RetryCountRestartHelper { tries_remaining, skipped: set }
    }

    /// How many more times `should_restart` may be asked in this round.
    pub fn tries_remaining(&self) -> (r: Option<usize>)
        ensures
            r == self@.tries_remaining,
    {
        self.tries_remaining
    }

    /// The corpus ids that used up their budget, each once, in no fixed
    /// order.
    pub fn skipped(&self) -> (ids: Vec<CorpusId>)
        ensures
            forall|id: usize|
                self@.skipped.contains(id) <==> exists|i: int|
                    0 <= i < ids@.len() && ids@[i].0 == id,
            forall|i: int, j: int| 0 <= i < j < ids@.len() ==> ids@[i] != ids@[j],
    {
        let raw = skipped_to_vec(&self.skipped);
        let mut ids: Vec<CorpusId> = Vec::new();
        let mut i: usize = 0;
        while i < raw.len()
            invariant
                i <= raw@.len(),
                ids@.len() == i,
                forall|k: int| 0 <= k < i ==> ids@[k].0 == raw@[k],
            decreases raw@.len() - i,
        {
            ids.push(CorpusId(raw[i]));
            i += 1;
        }
        proof {
            assert forall|id: usize| self@.skipped.contains(id) <==> exists|i: int|
                0 <= i < ids@.len() && ids@[i].0 == id by {
                if self@.skipped.contains(id) {
                    assert(raw@.to_set().contains(id));
                    let k = choose|k: int| 0 <= k < raw@.len() && raw@[k] == id;
                    assert(ids@[k].0 == id);
                }
                if exists|i: int| 0 <= i < ids@.len() && ids@[i].0 == id {
                    let k = choose|k: int| 0 <= k < ids@.len() && ids@[k].0 == id;
                    assert(raw@[k] == id);
                    assert(raw@.to_set().contains(id));
                }
            }
            assert forall|i: int, j: int| 0 <= i < j < ids@.len() implies ids@[i] != ids@[j] by {
                assert(raw@[i] != raw@[j]);
            }
        }
        ids
    }

    /// Whether corpus entry `id` used up its budget.
    pub fn is_skipped(&self, id: CorpusId) -> (r: bool)
        ensures
            r == self@.skipped.contains(id.0),
    {
        skipped_contains(&self.skipped, id.0)
    }

    /// Asks whether a stage without restart safety should run: it gets one
    /// run per round and is skipped when asked again in the same round.
    pub fn no_retry<I>(state: &mut StdState<I>, name: &str) -> (r: Result<bool, Error>)
        ensures
            no_retry_step(name@, *old(state), *final(state), r),
    {
        Self::should_restart(state, name, 1)
    }

    /// Initializes the progress kept under `name`, or counts down in it, for
    /// the corpus entry that is current, and answers whether the stage should
    /// run.
    pub fn should_restart<I>(state: &mut StdState<I>, name: &str, max_retries: usize) -> (r: Result<
        bool,
        Error,
    >)
        requires
            max_retries < usize::MAX,
        ensures
            r == restart_answer(*old(state), name@, max_retries),
            retry_entry(*final(state), name@) == restart_progress(*old(state), name@, max_retries),
            same_but_retry_entry(*final(state), *old(state), name@),
    {
        let corpus_id = match state.corpus_id {
            Some(id) => id,
            None => {
                return Err(Error::IllegalState);
            },
        };
        let initial_tries_remaining: usize = max_retries + 1;
        let mut helper = match state.named_metadata.retry_count.remove(name) {
            Some(helper) => helper,
            None => RetryCountRestartHelper {
                tries_remaining: Some(initial_tries_remaining),
                skipped: skipped_new(),
            },
        };
        let tries: usize = match helper.tries_remaining {
            Some(tries) => tries,
            None => initial_tries_remaining,
        };
        if tries == 0 {
            let _ = state.named_metadata.retry_count.insert(name, helper);
            return Err(Error::IllegalState);
        }
        let tries_remaining: usize = tries - 1;
        helper.tries_remaining = Some(tries_remaining);
        let run = if tries_remaining == 0 {
            let _ = skipped_insert(&mut helper.skipped, corpus_id.0);
            false
        } else {
            !skipped_contains(&helper.skipped, corpus_id.0)
        };
        let _ = state.named_metadata.retry_count.insert(name, helper);
        Ok(run)
    }

    /// Ends the round of the stage called `name`: its count is forgotten, its
    /// skipped ids stay. Fails with `KeyNotFound`, and changes nothing, where
    /// no progress is kept under `name`.
    pub fn clear_progress<I>(state: &mut StdState<I>, name: &str) -> (r: Result<(), Error>)
        ensures
            clear_retry_step(name@, *old(state), *final(state), r),
    {
        match state.named_metadata.retry_count.remove(name) {
            Some(mut helper) => {
                helper.tries_remaining = None;
                let _ = state.named_metadata.retry_count.insert(name, helper);
                Ok(())
            },
            None => Err(Error::KeyNotFound),
        }
    }
}

/// What a stage without restart safety does when asked whether it should
/// run, where it keeps its progress in `state` under `name`: the call of
/// `no_retry`.
pub open spec fn no_retry_step<I>(
    name: Seq<char>,
    pre: StdState<I>,
    post: StdState<I>,
    r: Result<bool, Error>,
) -> bool {
    &&& r == restart_answer(pre, name, 1)
    &&& retry_entry(post, name) == restart_progress(pre, name, 1)
    &&& same_but_retry_entry(post, pre, name)
}

/// What ending the round of the stage called `name` does to the state: the
/// call of `clear_progress`.
pub open spec fn clear_retry_step<I>(
    name: Seq<char>,
    pre: StdState<I>,
    post: StdState<I>,
    r: Result<(), Error>,
) -> bool {
    &&& same_but_retry_entry(post, pre, name)
    &&& match retry_entry(pre, name) {
        Some(progress) => r is Ok && retry_entry(post, name) == Some(cleared_progress(progress)),
        None => r == Err::<(), Error>(Error::KeyNotFound) && retry_entry(post, name) is None,
    }
}

/// Whether no round is in progress: nothing is recorded yet, or the last
/// round was ended by `clear_progress`.
pub open spec fn at_round_start(entry: Option<RetryProgress>) -> bool {
    match entry {
        Some(progress) => progress.tries_remaining is None,
        None => true,
    }
}

/// The ids that `entry` marks as skipped.
pub open spec fn skipped_of(entry: Option<RetryProgress>) -> Set<usize> {
    match entry {
        Some(progress) => progress.skipped,
        None => Set::<usize>::empty(),
    }
}

/// How many more calls `entry` allows before asking becomes an error.
pub open spec fn tries_left(entry: Option<RetryProgress>, max_retries: usize) -> nat {
    match entry {
        Some(progress) => match progress.tries_remaining {
            Some(tries) => tries as nat,
            None => (max_retries + 1) as nat,
        },
        None => (max_retries + 1) as nat,
    }
}

/// The progress after `n` calls of `should_restart` in a row for corpus
/// entry `id`, with no `clear_progress` between them.
pub open spec fn progress_after(
    entry: Option<RetryProgress>,
    id: usize,
    max_retries: usize,
    n: nat,
) -> Option<RetryProgress>
    decreases n,
{
    if n == 0 {
        entry
    } else {
        restart_outcome(progress_after(entry, id, max_retries, (n - 1) as nat), id, max_retries).0
    }
}

/// The answer of the `n`-th of those calls, counted from one.
pub open spec fn answer_of(entry: Option<RetryProgress>, id: usize, max_retries: usize, n: nat) -> Result<
    bool,
    Error,
>
    recommends
        n >= 1,
{
    restart_outcome(progress_after(entry, id, max_retries, (n - 1) as nat), id, max_retries).1
}

/// How many of the first `n` of those calls told the stage to run.
pub open spec fn runs_granted(entry: Option<RetryProgress>, id: usize, max_retries: usize, n: nat) -> nat
    decreases n,
{
    if n == 0 {
        0
    } else {
        let earlier = runs_granted(entry, id, max_retries, (n - 1) as nat);
        if answer_of(entry, id, max_retries, n) == Ok::<bool, Error>(true) {
            earlier + 1
        } else {
            earlier
        }
    }
}

proof fn lemma_round(entry: Option<RetryProgress>, id: usize, max_retries: usize, n: nat)
    requires
        max_retries < usize::MAX,
        at_round_start(entry),
    ensures
        tries_left(progress_after(entry, id, max_retries, n), max_retries) == if n <= max_retries
            + 1 {
            max_retries + 1 - n
        } else {
            0
        },
        runs_granted(entry, id, max_retries, n) <= n,
        runs_granted(entry, id, max_retries, n) <= max_retries,
        n <= max_retries ==> skipped_of(progress_after(entry, id, max_retries, n)) == skipped_of(
            entry,
        ),
        n >= 1 ==> progress_after(entry, id, max_retries, n) is Some,
        n >= 1 ==> progress_after(entry, id, max_retries, n)->0.tries_remaining is Some,
    decreases n,
{
    if n > 0 {
        lemma_round(entry, id, max_retries, (n - 1) as nat);
    }
}

/// Within one round, a stage runs on one corpus entry at most `max_retries`
/// times, and so at most `max_retries + 1` times: of any number of calls of
/// `should_restart` in a row, starting with no round in progress, no more
/// than that many answer `true`.
pub proof fn lemma_runs_within_budget(
    entry: Option<RetryProgress>,
    id: usize,
    max_retries: usize,
    n: nat,
)
    requires
        max_retries < usize::MAX,
        at_round_start(entry),
    ensures
        runs_granted(entry, id, max_retries, n) <= max_retries,
        runs_granted(entry, id, max_retries, n) <= max_retries + 1,
{
    lemma_round(entry, id, max_retries, n);
}

/// After `clear_progress`, `should_restart` with a budget of at least one
/// retry answers `true`, unless the corpus entry is already skipped; the
/// skipped ids are as they were.
pub proof fn lemma_restart_after_clear(progress: RetryProgress, id: usize, max_retries: usize)
    requires
        1 <= max_retries < usize::MAX,
    ensures
        restart_outcome(Some(cleared_progress(progress)), id, max_retries).1 == Ok::<bool, Error>(
            !progress.skipped.contains(id),
        ),
        restart_outcome(Some(cleared_progress(progress)), id, max_retries).0->0.skipped
            == progress.skipped,
{
}

/// The answers of a round, for a corpus entry that is not skipped when the
/// round starts: the first `max_retries` calls answer `true`; the next one
/// answers `false` and marks the entry as skipped; every later one is an
/// error.
pub proof fn lemma_answers_of_round(
    entry: Option<RetryProgress>,
    id: usize,
    max_retries: usize,
    k: nat,
)
    requires
        max_retries < usize::MAX,
        at_round_start(entry),
        !skipped_of(entry).contains(id),
        k >= 1,
    ensures
        k <= max_retries ==> answer_of(entry, id, max_retries, k) == Ok::<bool, Error>(true),
        k == max_retries + 1 ==> answer_of(entry, id, max_retries, k) == Ok::<bool, Error>(false)
            && skipped_of(progress_after(entry, id, max_retries, k)).contains(id),
        k > max_retries + 1 ==> answer_of(entry, id, max_retries, k) == Err::<bool, Error>(
            Error::IllegalState,
        ),
{
    lemma_round(entry, id, max_retries, (k - 1) as nat);
}

/// Once a corpus entry is skipped it stays skipped, whatever is asked later
/// and whether or not rounds are ended in between.
pub proof fn lemma_skipped_grows(entry: Option<RetryProgress>, id: usize, max_retries: usize)
    requires
        max_retries < usize::MAX,
    ensures
        skipped_of(entry).subset_of(skipped_of(restart_outcome(entry, id, max_retries).0)),
        entry is Some ==> skipped_of(Some(cleared_progress(entry->0))) == skipped_of(entry),
{
}

/// The execution count at which a stage started its current round.
#[derive(Clone, Copy, Debug, PartialEq, Eq, Structural)]
pub struct ExecutionCountRestartHelperMetadata {
    /// How many executions the state had seen when the stage started.
    pub started_at_execs: u64,
}

/// The execution-count record that `state` keeps under `name`.
pub open spec fn execution_entry<I>(state: StdState<I>, name: Seq<char>) -> Option<
    ExecutionCountRestartHelperMetadata,
> {
    state.named_metadata.execution_count.lookup(name)
}

/// `after` differs from `before` at most in the execution-count record kept
/// under `name`.
pub open spec fn same_but_execution_entry<I>(
    after: StdState<I>,
    before: StdState<I>,
    name: Seq<char>,
) -> bool {
    &&& after.corpus == before.corpus
    &&& after.rand == before.rand
    &&& after.executions == before.executions
    &&& after.metadata == before.metadata
    &&& after.named_metadata.retry_count == before.named_metadata.retry_count
    &&& after.corpus_id == before.corpus_id
    &&& after.stage_idx == before.stage_idx
    &&& after.stop_requested == before.stop_requested
    &&& forall|other: Seq<char>|
        other != name ==> #[trigger] after.named_metadata.execution_count.lookup(other)
            == before.named_metadata.execution_count.lookup(other)
}

/// A helper for stages that run for a number of executions: it remembers at
/// which execution count the stage started, in the state so that the count
/// survives a restart, and in itself as a cache.
#[derive(Clone, Copy, Debug)]
pub struct ExecutionCountRestartHelper {
    /// The execution count at which the stage started, once known.
    pub started_at_execs: Option<u64>,
}

impl Default for ExecutionCountRestartHelper {
    fn default() -> (helper: ExecutionCountRestartHelper)
        ensures
            helper.started_at_execs is None,
    {
        ExecutionCountRestartHelper { started_at_execs: None }
    }
}

impl ExecutionCountRestartHelper {
    /// A helper that knows no start yet.
    pub fn new() -> (helper: ExecutionCountRestartHelper)
        ensures
            helper.started_at_execs is None,
    {
        ExecutionCountRestartHelper { started_at_execs: None }
    }

    /// The start that `execs_since_progress_start` goes by: the cached one,
    /// else the one recorded in the state under `name`.
    pub open spec fn known_start<I>(self, state: StdState<I>, name: Seq<char>) -> Option<u64> {
        match self.started_at_execs {
            Some(start) => Some(start),
            None => match execution_entry(state, name) {
                Some(record) => Some(record.started_at_execs),
                None => None,
            },
        }
    }

    /// How many executions the state has seen since the stage started. The
    /// start is cached in the helper. Fails with `IllegalState` where no
    /// start is known, or where the state's counter is behind the start.
    pub fn execs_since_progress_start<I>(&mut self, state: &mut StdState<I>, name: &str) -> (r:
        Result<u64, Error>)
        ensures
            *final(state) == *old(state),
            match old(self).known_start(*old(state), name@) {
                Some(start) => final(self).started_at_execs == Some(start) && if start <= old(
                    state,
                ).executions {
                    r == Ok::<u64, Error>((old(state).executions - start) as u64)
                } else {
                    r == Err::<u64, Error>(Error::IllegalState)
                },
                None => r == Err::<u64, Error>(Error::IllegalState) && *final(self) == *old(self),
            },
    {
        let started_at_execs: u64 = match self.started_at_execs {
            Some(started_at_execs) => started_at_execs,
            None => match state.named_metadata.execution_count.get(name) {
                Some(record) => {
                    self.started_at_execs = Some(record.started_at_execs);
                    record.started_at_execs
                },
                None => {
                    return Err(Error::IllegalState);
                },
            },
        };
        if state.executions < started_at_execs {
            return Err(Error::IllegalState);
        }
        Ok(state.executions - started_at_execs)
    }

    /// Records the start of the stage called `name`, unless one is recorded
    /// already, caches it, and answers that the stage should run.
    pub fn should_restart<I>(&mut self, state: &mut StdState<I>, name: &str) -> (r: Result<
        bool,
        Error,
    >)
        ensures
            r == Ok::<bool, Error>(true),
            same_but_execution_entry(*final(state), *old(state), name@),
            execution_entry(*final(state), name@) == Some(
                match execution_entry(*old(state), name@) {
                    Some(record) => record,
                    None => ExecutionCountRestartHelperMetadata {
                        started_at_execs: old(state).executions,
                    },
                },
            ),
            final(self).started_at_execs == Some(
                execution_entry(*final(state), name@)->0.started_at_execs,
            ),
    {
        let executions: u64 = state.executions;
        let started_at_execs: u64 = match state.named_metadata.execution_count.get(name) {
            Some(record) => record.started_at_execs,
            None => {
                let _ = state.named_metadata.execution_count.insert(
                    name,
                    ExecutionCountRestartHelperMetadata { started_at_execs: executions },
                );
                executions
            },
        };
        self.started_at_execs = Some(started_at_execs);
        Ok(true)
    }

    /// Forgets the start of the stage called `name`, in the helper and in the
    /// state. A start must be recorded under `name`.
    pub fn clear_progress<I>(&mut self, state: &mut StdState<I>, name: &str) -> (r: Result<
        (),
        Error,
    >)
        requires
            execution_entry(*old(state), name@) is Some,
        ensures
            r is Ok,
            final(self).started_at_execs is None,
            execution_entry(*final(state), name@) is None,
            same_but_execution_entry(*final(state), *old(state), name@),
    {
        self.started_at_execs = None;
        let _ = state.named_metadata.execution_count.remove(name);
        Ok(())
    }
}

} // verus!
