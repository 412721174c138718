use fuzz_core::corpus::{CorpusId, Testcase};
use fuzz_core::error::Error;
use fuzz_core::metadata::NamedMap;
use fuzz_core::stages::restart::{
    ExecutionCountRestartHelper, ExecutionCountRestartHelperMetadata, RetryCountRestartHelper,
};
use fuzz_core::stages::{HasCurrentStage, RestartableStage, Stage, StageId};
use fuzz_core::state::StdState;

struct NopInput;

#[test]
fn test_tries_progress() {
    let name = "TestStage";

    let mut state: StdState<NopInput> = StdState::new(0);

    let corpus_id = state.corpus_mut().add(Testcase::new(NopInput {})).unwrap();

    state.set_corpus_id(corpus_id).unwrap();

    for _ in 0..10 {
        // used normally, no retries means we never skip
        assert!(RetryCountRestartHelper::should_restart(&mut state, name, 1).unwrap());
        RetryCountRestartHelper::clear_progress(&mut state, name).unwrap();
    }

    for _ in 0..10 {
        // used normally, only one retry means we never skip
        assert!(RetryCountRestartHelper::should_restart(&mut state, name, 2).unwrap());
        assert!(RetryCountRestartHelper::should_restart(&mut state, name, 2).unwrap());
        RetryCountRestartHelper::clear_progress(&mut state, name).unwrap();
    }

    assert!(RetryCountRestartHelper::should_restart(&mut state, name, 2).unwrap());
    // task failed, let's resume
    // we still have one more try!
    assert!(RetryCountRestartHelper::should_restart(&mut state, name, 2).unwrap());

    // task failed, let's resume
    // out of retries, so now we skip
    assert!(!RetryCountRestartHelper::should_restart(&mut state, name, 2).unwrap());
    RetryCountRestartHelper::clear_progress(&mut state, name).unwrap();

    // we previously exhausted this testcase's retries, so we skip
    assert!(!RetryCountRestartHelper::should_restart(&mut state, name, 2).unwrap());
    RetryCountRestartHelper::clear_progress(&mut state, name).unwrap();
}

struct CountingStage {
    performed: usize,
    cleared: usize,
    fail: bool,
}

impl Stage<(), (), StdState<NopInput>, ()> for CountingStage {
    fn should_restart(&mut self, state: &mut StdState<NopInput>) -> Result<bool, Error> {
        RetryCountRestartHelper::should_restart(state, "counting", 1)
    }

    fn clear_progress(&mut self, state: &mut StdState<NopInput>) -> Result<(), Error> {
        self.cleared += 1;
        RetryCountRestartHelper::clear_progress(state, "counting")
    }

    fn perform(
        &mut self,
        _fuzzer: &mut (),
        _executor: &mut (),
        _state: &mut StdState<NopInput>,
        _manager: &mut (),
    ) -> Result<(), Error> {
        self.performed += 1;
        if self.fail {
            Err(Error::Other)
        } else {
            Ok(())
        }
    }
}

#[test]
fn progress_is_cleared_only_after_success() {
    let mut state: StdState<NopInput> = StdState::new(1);
    let id = state.corpus_mut().add(Testcase::new(NopInput {})).unwrap();
    state.set_corpus_id(id).unwrap();

    let mut stage = CountingStage { performed: 0, cleared: 0, fail: false };
    assert_eq!(stage.perform_restartable(&mut (), &mut (), &mut state, &mut ()), Ok(()));
    assert_eq!((stage.performed, stage.cleared), (1, 1));

    stage.fail = true;
    assert_eq!(stage.perform_restartable(&mut (), &mut (), &mut state, &mut ()), Err(Error::Other));
    assert_eq!((stage.performed, stage.cleared), (2, 1));
}

fn state_at(id: usize) -> StdState<NopInput> {
    let mut state: StdState<NopInput> = StdState::new(id as u64);
    for _ in 0..=id {
        state.corpus_mut().add(Testcase::new(NopInput {})).unwrap();
    }
    state.set_corpus_id(CorpusId(id)).unwrap();
    state
}

fn progress(state: &StdState<NopInput>, name: &str) -> (Option<usize>, Vec<CorpusId>) {
    let helper = state.named_metadata.retry_count.get(name).unwrap();
    let mut skipped = helper.skipped();
    skipped.sort();
    (helper.tries_remaining(), skipped)
}

#[test]
fn one_retry_first_visit_runs_and_a_second_without_clearing_is_refused() {
    let mut state = state_at(0);
    assert_eq!(RetryCountRestartHelper::should_restart(&mut state, "s", 1), Ok(true));
    assert_eq!(progress(&state, "s"), (Some(1), vec![]));

    // success and clear_progress: later visits keep running
    for _ in 0..5 {
        assert_eq!(RetryCountRestartHelper::clear_progress(&mut state, "s"), Ok(()));
        assert_eq!(progress(&state, "s"), (None, vec![]));
        assert_eq!(RetryCountRestartHelper::should_restart(&mut state, "s", 1), Ok(true));
    }

    // a failure, no clear_progress: the next visit is refused and the entry skipped
    assert_eq!(RetryCountRestartHelper::should_restart(&mut state, "s", 1), Ok(false));
    assert_eq!(progress(&state, "s"), (Some(0), vec![CorpusId(0)]));
}

#[test]
fn two_retries_allow_two_visits_in_a_row() {
    let mut state = state_at(0);
    assert_eq!(RetryCountRestartHelper::should_restart(&mut state, "s", 2), Ok(true));
    assert_eq!(progress(&state, "s"), (Some(2), vec![]));
    assert_eq!(RetryCountRestartHelper::should_restart(&mut state, "s", 2), Ok(true));
    assert_eq!(progress(&state, "s"), (Some(1), vec![]));
    assert_eq!(RetryCountRestartHelper::should_restart(&mut state, "s", 2), Ok(false));
    assert_eq!(progress(&state, "s"), (Some(0), vec![CorpusId(0)]));
}

#[test]
fn asking_past_zero_is_an_illegal_state() {
    let mut state = state_at(0);
    assert_eq!(RetryCountRestartHelper::should_restart(&mut state, "s", 1), Ok(true));
    assert_eq!(RetryCountRestartHelper::should_restart(&mut state, "s", 1), Ok(false));
    for _ in 0..3 {
        assert_eq!(
            RetryCountRestartHelper::should_restart(&mut state, "s", 1),
            Err(Error::IllegalState)
        );
        assert_eq!(progress(&state, "s"), (Some(0), vec![CorpusId(0)]));
    }
}

#[test]
fn no_retries_at_all_skip_at_the_first_visit() {
    let mut state = state_at(0);
    assert_eq!(RetryCountRestartHelper::should_restart(&mut state, "s", 0), Ok(false));
    assert_eq!(progress(&state, "s"), (Some(0), vec![CorpusId(0)]));
    // clearing does not bring a run back either
    assert_eq!(RetryCountRestartHelper::clear_progress(&mut state, "s"), Ok(()));
    assert_eq!(RetryCountRestartHelper::should_restart(&mut state, "s", 0), Ok(false));
}

#[test]
fn the_number_of_runs_in_a_round_stays_within_the_budget() {
    for max_retries in 0..6usize {
        let mut state = state_at(0);
        let mut granted = 0;
        for _ in 0..10 {
            if RetryCountRestartHelper::should_restart(&mut state, "s", max_retries) == Ok(true) {
                granted += 1;
            }
        }
        assert_eq!(granted, max_retries);
        assert!(granted <= max_retries + 1);
    }
}

#[test]
fn should_restart_needs_a_current_corpus_entry() {
    let mut state: StdState<NopInput> = StdState::new(0);
    assert_eq!(
        RetryCountRestartHelper::should_restart(&mut state, "s", 1),
        Err(Error::IllegalState)
    );
    assert_eq!(RetryCountRestartHelper::no_retry(&mut state, "s"), Err(Error::IllegalState));
    assert!(state.named_metadata.retry_count.get("s").is_none());
}

#[test]
fn clear_progress_of_an_unknown_stage_is_key_not_found() {
    let mut state = state_at(0);
    assert_eq!(RetryCountRestartHelper::clear_progress(&mut state, "s"), Err(Error::KeyNotFound));
    assert!(state.named_metadata.retry_count.get("s").is_none());
}

#[test]
fn stages_keep_their_progress_apart_by_name() {
    let mut state = state_at(0);
    assert_eq!(RetryCountRestartHelper::no_retry(&mut state, "a"), Ok(true));
    assert_eq!(RetryCountRestartHelper::no_retry(&mut state, "a"), Ok(false));
    assert_eq!(RetryCountRestartHelper::no_retry(&mut state, "b"), Ok(true));
    assert_eq!(progress(&state, "a"), (Some(0), vec![CorpusId(0)]));
    assert_eq!(progress(&state, "b"), (Some(1), vec![]));
    assert_eq!(RetryCountRestartHelper::clear_progress(&mut state, "b"), Ok(()));
    assert_eq!(progress(&state, "a"), (Some(0), vec![CorpusId(0)]));
}

#[test]
fn skipped_entries_stay_skipped_and_others_are_judged_apart() {
    let mut state = state_at(2);
    assert_eq!(RetryCountRestartHelper::should_restart(&mut state, "s", 1), Ok(true));
    assert_eq!(RetryCountRestartHelper::should_restart(&mut state, "s", 1), Ok(false));
    RetryCountRestartHelper::clear_progress(&mut state, "s").unwrap();

    state.set_corpus_id(CorpusId(1)).unwrap();
    assert_eq!(RetryCountRestartHelper::should_restart(&mut state, "s", 1), Ok(true));
    assert_eq!(RetryCountRestartHelper::should_restart(&mut state, "s", 1), Ok(false));
    RetryCountRestartHelper::clear_progress(&mut state, "s").unwrap();
    assert_eq!(progress(&state, "s"), (None, vec![CorpusId(1), CorpusId(2)]));

    state.set_corpus_id(CorpusId(0)).unwrap();
    assert_eq!(RetryCountRestartHelper::should_restart(&mut state, "s", 1), Ok(true));
    state.set_corpus_id(CorpusId(2)).unwrap();
    RetryCountRestartHelper::clear_progress(&mut state, "s").unwrap();
    assert_eq!(RetryCountRestartHelper::should_restart(&mut state, "s", 5), Ok(false));
    assert_eq!(progress(&state, "s"), (Some(5), vec![CorpusId(1), CorpusId(2)]));
}

#[test]
fn a_helper_read_back_from_its_parts_is_the_same_helper() {
    let mut state = state_at(3);
    assert_eq!(RetryCountRestartHelper::should_restart(&mut state, "s", 1), Ok(true));
    assert_eq!(RetryCountRestartHelper::should_restart(&mut state, "s", 1), Ok(false));
    state.set_corpus_id(CorpusId(1)).unwrap();
    RetryCountRestartHelper::clear_progress(&mut state, "s").unwrap();
    assert_eq!(RetryCountRestartHelper::should_restart(&mut state, "s", 2), Ok(true));

    let helper = state.named_metadata.retry_count.get("s").unwrap();
    let copy = RetryCountRestartHelper::from_parts(helper.tries_remaining(), &helper.skipped());
    assert_eq!(copy.tries_remaining(), Some(2));
    assert_eq!(copy.skipped(), vec![CorpusId(3)]);
    assert!(copy.is_skipped(CorpusId(3)));
    assert!(!copy.is_skipped(CorpusId(1)));

    let twice = RetryCountRestartHelper::from_parts(None, &vec![CorpusId(4), CorpusId(4), CorpusId(7)]);
    let mut ids = twice.skipped();
    ids.sort();
    assert_eq!(ids, vec![CorpusId(4), CorpusId(7)]);
    assert_eq!(twice.tries_remaining(), None);
}

#[test]
fn execution_count_is_the_distance_from_the_start() {
    let mut state = state_at(0);
    *state.executions_mut() = 10;
    let mut helper = ExecutionCountRestartHelper::new();
    assert_eq!(helper.started_at_execs, None);

    assert_eq!(helper.should_restart(&mut state, "m"), Ok(true));
    assert_eq!(helper.started_at_execs, Some(10));
    assert_eq!(
        state.named_metadata.execution_count.get("m"),
        Some(&ExecutionCountRestartHelperMetadata { started_at_execs: 10 })
    );
    assert_eq!(helper.execs_since_progress_start(&mut state, "m"), Ok(0));

    *state.executions_mut() = 25;
    assert_eq!(helper.execs_since_progress_start(&mut state, "m"), Ok(15));

    // after a restart the start is still the first one
    let mut revived = ExecutionCountRestartHelper::default();
    assert_eq!(revived.execs_since_progress_start(&mut state, "m"), Ok(15));
    assert_eq!(revived.started_at_execs, Some(10));
    *state.executions_mut() = 30;
    let mut again = ExecutionCountRestartHelper::new();
    assert_eq!(again.should_restart(&mut state, "m"), Ok(true));
    assert_eq!(again.started_at_execs, Some(10));
    assert_eq!(again.execs_since_progress_start(&mut state, "m"), Ok(20));

    assert_eq!(helper.clear_progress(&mut state, "m"), Ok(()));
    assert_eq!(helper.started_at_execs, None);
    assert!(state.named_metadata.execution_count.get("m").is_none());

    // the next round starts where the counter stands
    assert_eq!(helper.should_restart(&mut state, "m"), Ok(true));
    assert_eq!(helper.execs_since_progress_start(&mut state, "m"), Ok(0));
    assert_eq!(helper.started_at_execs, Some(30));
}

#[test]
fn execution_count_without_a_start_is_an_illegal_state() {
    let mut state = state_at(0);
    let mut helper = ExecutionCountRestartHelper::new();
    assert_eq!(helper.execs_since_progress_start(&mut state, "m"), Err(Error::IllegalState));
    assert_eq!(helper.started_at_execs, None);

    // a start under another name does not count
    let mut other = ExecutionCountRestartHelper::new();
    other.should_restart(&mut state, "other").unwrap();
    assert_eq!(helper.execs_since_progress_start(&mut state, "m"), Err(Error::IllegalState));

    // a counter behind the start
    *state.executions_mut() = 5;
    let mut late = ExecutionCountRestartHelper { started_at_execs: Some(6) };
    assert_eq!(late.execs_since_progress_start(&mut state, "m"), Err(Error::IllegalState));
}

#[test]
fn named_map_keeps_one_value_per_name() {
    let mut map: NamedMap<u32> = NamedMap::new();
    assert!(!map.contains("a"));
    assert_eq!(map.get("a"), None);
    assert_eq!(map.insert("a", 1), None);
    assert_eq!(map.insert("b", 2), None);
    assert_eq!(map.insert("a", 3), Some(1));
    assert_eq!(map.get("a"), Some(&3));
    assert_eq!(map.get("b"), Some(&2));
    assert!(map.contains("b"));
    assert_eq!(map.remove("a"), Some(3));
    assert_eq!(map.remove("a"), None);
    assert_eq!(map.get("a"), None);
    assert_eq!(map.get("b"), Some(&2));
    assert_eq!(map.insert("", 9), None);
    assert_eq!(map.get(""), Some(&9));
}

#[test]
fn a_fresh_state_is_empty() {
    let mut state: StdState<NopInput> = StdState::new(42);
    assert_eq!(state.corpus().count(), 0);
    assert_eq!(*state.executions(), 0);
    assert_eq!(state.current_corpus_id(), Ok(None));
    assert_eq!(state.current_stage_idx(), Ok(None));
    assert!(!state.stop_requested());
    assert!(state.metadata.nautilus_chunks.is_none());

    state.set_current_stage_idx(StageId(4)).unwrap();
    assert_eq!(state.current_stage_idx(), Ok(Some(StageId(4))));
    assert_eq!(state.on_restart(), Ok(()));
    assert_eq!(state.current_stage_idx(), Ok(Some(StageId(4))));
    assert_eq!(state.clear_stage(), Ok(()));
    assert_eq!(state.current_stage_idx(), Ok(None));
    assert_eq!(StageId(12).to_string(), "12");

    state.request_stop();
    assert!(state.stop_requested());
    state.discard_stop_request();
    assert!(!state.stop_requested());
}

#[test]
fn corpus_ids_are_positions_and_stay_valid() {
    let mut state: StdState<u8> = StdState::new(0);
    let a = state.corpus_mut().add(Testcase::new(7)).unwrap();
    let b = state.corpus_mut().add(Testcase::new(8)).unwrap();
    assert_eq!((a, b), (CorpusId(0), CorpusId(1)));
    assert_eq!(state.corpus().count(), 2);
    assert_eq!(state.corpus().get(a).unwrap().input(), &Some(7));
    assert_eq!(state.corpus().cloned_input_for_id(b), Ok(8));
    assert_eq!(state.corpus().cloned_input_for_id(CorpusId(2)), Err(Error::KeyNotFound));
    assert!(matches!(state.corpus().get(CorpusId(2)), Err(Error::KeyNotFound)));
    let c = state.corpus_mut().add(Testcase { input: None, ..Testcase::new(0) }).unwrap();
    assert_eq!(state.corpus().cloned_input_for_id(c), Err(Error::IllegalState));
    assert_eq!(state.corpus().cloned_input_for_id(a), Ok(7));
}

#[test]
fn errors_describe_themselves() {
    assert_eq!(Error::illegal_state(), Error::IllegalState);
    assert_eq!(Error::key_not_found(), Error::KeyNotFound);
    assert_eq!(Error::shutting_down(), Error::ShuttingDown);
    assert_eq!(Error::IllegalState.describe(), "illegal state");
    assert_eq!(Error::KeyNotFound.describe(), "key not found");
    assert_eq!(Error::ShuttingDown.describe(), "shutting down");
    assert_eq!(Error::Executor.describe(), "executor error");
    assert_eq!(Error::Serialization.describe(), "serialization error");
    assert_eq!(Error::Other.describe(), "other error");
}
