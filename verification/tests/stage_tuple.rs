use std::cell::RefCell;
use std::rc::Rc;

use fuzz_core::corpus::{CorpusId, Testcase};
use fuzz_core::error::Error;
use fuzz_core::events::EventProcessor;
use fuzz_core::stages::closure::{ClosureStage, CLOSURE_STAGE_NAME};
use fuzz_core::stages::restart::RetryCountRestartHelper;
use fuzz_core::stages::{
    check_stop, perform_from, perform_head, HasCurrentStage, RestartableStage, Stage, StageId,
    StagesTuple,
};
use fuzz_core::state::StdState;

type State = StdState<u32>;
type Log = Rc<RefCell<Vec<String>>>;

#[derive(Default)]
struct Manager {
    shutdowns: usize,
    fail_shutdown: bool,
}

impl EventProcessor for Manager {
    fn on_shutdown(&mut self) -> Result<(), Error> {
        self.shutdowns += 1;
        if self.fail_shutdown {
            Err(Error::Other)
        } else {
            Ok(())
        }
    }
}

/// A stage that writes down what is done to it, keeps a retry budget under
/// its own name, and fails or asks for a stop on demand.
struct Recorded {
    name: &'static str,
    log: Log,
    max_retries: usize,
    fail: bool,
    request_stop: bool,
    seen_stage_idx: Vec<Option<StageId>>,
}

impl Recorded {
    fn new(name: &'static str, log: &Log) -> Self {
        Recorded {
            name,
            log: log.clone(),
            max_retries: 1,
            fail: false,
            request_stop: false,
            seen_stage_idx: Vec::new(),
        }
    }

    fn note(&self, what: &str) {
        self.log.borrow_mut().push(format!("{}:{}", self.name, what));
    }
}

impl Stage<(), Manager, State, ()> for Recorded {
    fn should_restart(&mut self, state: &mut State) -> Result<bool, Error> {
        let r = RetryCountRestartHelper::should_restart(state, self.name, self.max_retries);
        self.note(&format!("restart={r:?}"));
        r
    }

    fn clear_progress(&mut self, state: &mut State) -> Result<(), Error> {
        self.note("clear");
        RetryCountRestartHelper::clear_progress(state, self.name)
    }

    fn perform(
        &mut self,
        _fuzzer: &mut (),
        _executor: &mut (),
        state: &mut State,
        _manager: &mut Manager,
    ) -> Result<(), Error> {
        self.note("perform");
        self.seen_stage_idx.push(state.current_stage_idx().unwrap());
        if self.request_stop {
            state.request_stop();
        }
        if self.fail {
            Err(Error::Other)
        } else {
            Ok(())
        }
    }
}

fn state_with_entries(n: usize) -> State {
    let mut state: State = StdState::new(5);
    for i in 0..n {
        state.corpus_mut().add(Testcase::new(i as u32)).unwrap();
    }
    state
}

fn log() -> Log {
    Rc::new(RefCell::new(Vec::new()))
}

fn taken(log: &Log) -> Vec<String> {
    log.borrow_mut().drain(..).collect()
}

fn walk<T: StagesTuple<(), Manager, State, ()>>(
    stages: &mut T,
    state: &mut State,
    manager: &mut Manager,
) -> Result<(), Error> {
    stages.perform_all(&mut (), &mut (), state, manager)
}

#[test]
fn stages_run_in_declared_order_with_their_index_recorded() {
    let log = log();
    let mut stages =
        (Recorded::new("s0", &log), (Recorded::new("s1", &log), (Recorded::new("s2", &log), ())));
    assert_eq!(stages.len(), 3);
    let mut state = state_with_entries(1);
    state.set_corpus_id(CorpusId(0)).unwrap();
    let mut manager = Manager::default();

    assert_eq!(walk(&mut stages, &mut state, &mut manager), Ok(()));

    assert_eq!(
        taken(&log),
        vec![
            "s0:restart=Ok(true)", "s0:perform", "s0:clear",
            "s1:restart=Ok(true)", "s1:perform", "s1:clear",
            "s2:restart=Ok(true)", "s2:perform", "s2:clear",
        ]
    );
    // counted from the end: the head of three stages is stage 3
    assert_eq!(stages.0.seen_stage_idx, vec![Some(StageId(3))]);
    assert_eq!(stages.1 .0.seen_stage_idx, vec![Some(StageId(2))]);
    assert_eq!(stages.1 .1 .0.seen_stage_idx, vec![Some(StageId(1))]);
    assert_eq!(state.current_stage_idx(), Ok(None));
    assert_eq!(manager.shutdowns, 0);
}

#[test]
fn crash_budget_exhausted() {
    let log = log();
    let mut stage = Recorded::new("s", &log);
    stage.max_retries = 2;
    stage.fail = true;
    let mut stages = (stage, ());
    let mut state = state_with_entries(1);
    state.set_corpus_id(CorpusId(0)).unwrap();
    let mut manager = Manager::default();

    // perform fails twice; progress is not cleared in between
    for _ in 0..2 {
        assert_eq!(walk(&mut stages, &mut state, &mut manager), Err(Error::Other));
        assert_eq!(taken(&log), vec!["s:restart=Ok(true)", "s:perform"]);
        assert_eq!(state.current_stage_idx(), Ok(Some(StageId(1))));
    }

    // third iteration: the stage is refused and the entry is skipped
    assert_eq!(walk(&mut stages, &mut state, &mut manager), Ok(()));
    assert_eq!(taken(&log), vec!["s:restart=Ok(false)", "s:clear"]);
    let helper = state.named_metadata.retry_count.get("s").unwrap();
    assert!(helper.is_skipped(CorpusId(0)));
    assert_eq!(helper.skipped(), vec![CorpusId(0)]);
    assert_eq!(state.current_stage_idx(), Ok(None));

    // no further perform for C0, in any later round
    for _ in 0..3 {
        assert_eq!(walk(&mut stages, &mut state, &mut manager), Ok(()));
        assert_eq!(taken(&log), vec!["s:restart=Ok(false)", "s:clear"]);
    }

    // a new entry C1 gets its own budget
    let c1 = state.corpus_mut().add(Testcase::new(1)).unwrap();
    state.set_corpus_id(c1).unwrap();
    stages.0.fail = false;
    assert_eq!(walk(&mut stages, &mut state, &mut manager), Ok(()));
    assert_eq!(taken(&log), vec!["s:restart=Ok(true)", "s:perform", "s:clear"]);
    let helper = state.named_metadata.retry_count.get("s").unwrap();
    assert!(!helper.is_skipped(c1));
    assert!(helper.is_skipped(CorpusId(0)));
}

#[test]
fn resume_after_restart() {
    let log = log();
    let mut stages =
        (Recorded::new("s0", &log), (Recorded::new("s1", &log), (Recorded::new("s2", &log), ())));
    stages.1 .0.max_retries = 2;
    let mut state = state_with_entries(1);
    state.set_corpus_id(CorpusId(0)).unwrap();
    let mut manager = Manager::default();

    // the worker dies in S1: S0 is done, S1 has been asked once
    stages.1 .0.fail = true;
    assert_eq!(walk(&mut stages, &mut state, &mut manager), Err(Error::Other));
    assert_eq!(
        taken(&log),
        vec!["s0:restart=Ok(true)", "s0:perform", "s0:clear", "s1:restart=Ok(true)", "s1:perform"]
    );
    assert_eq!(state.current_stage_idx(), Ok(Some(StageId(2))));
    let helper = state.named_metadata.retry_count.get("s1").unwrap();
    assert_eq!(helper.tries_remaining(), Some(2));

    // after the restart the tuple is entered again
    state.on_restart().unwrap();
    stages.1 .0.fail = false;
    assert_eq!(walk(&mut stages, &mut state, &mut manager), Ok(()));
    // S0 is passed over, S1 retries, S2 runs
    assert_eq!(
        taken(&log),
        vec![
            "s1:restart=Ok(true)", "s1:perform", "s1:clear",
            "s2:restart=Ok(true)", "s2:perform", "s2:clear",
        ]
    );
    assert_eq!(state.current_stage_idx(), Ok(None));
    let helper = state.named_metadata.retry_count.get("s1").unwrap();
    assert_eq!(helper.tries_remaining(), None);
    assert!(helper.skipped().is_empty());
}

#[test]
fn resume_after_restart_with_the_budget_used_up() {
    let log = log();
    let mut stages =
        (Recorded::new("s0", &log), (Recorded::new("s1", &log), (Recorded::new("s2", &log), ())));
    let mut state = state_with_entries(1);
    state.set_corpus_id(CorpusId(0)).unwrap();
    let mut manager = Manager::default();

    stages.1 .0.fail = true;
    assert_eq!(walk(&mut stages, &mut state, &mut manager), Err(Error::Other));
    taken(&log);

    assert_eq!(walk(&mut stages, &mut state, &mut manager), Ok(()));
    // S0 is passed over, S1 is refused, S2 runs
    assert_eq!(
        taken(&log),
        vec!["s1:restart=Ok(false)", "s1:clear", "s2:restart=Ok(true)", "s2:perform", "s2:clear"]
    );
    assert!(state.named_metadata.retry_count.get("s1").unwrap().is_skipped(CorpusId(0)));
    assert_eq!(state.current_stage_idx(), Ok(None));
}

#[test]
fn stop_during_tuple() {
    let log = log();
    let mut stages = (Recorded::new("s0", &log), (Recorded::new("s1", &log), ()));
    stages.0.request_stop = true;
    let mut state = state_with_entries(1);
    state.set_corpus_id(CorpusId(0)).unwrap();
    let mut manager = Manager::default();

    assert_eq!(walk(&mut stages, &mut state, &mut manager), Err(Error::ShuttingDown));

    // S1 is not entered
    assert_eq!(taken(&log), vec!["s0:restart=Ok(true)", "s0:perform", "s0:clear"]);
    assert_eq!(manager.shutdowns, 1);
    // the request was discarded
    assert!(!state.stop_requested());
    assert_eq!(state.current_stage_idx(), Ok(None));
}

#[test]
fn a_failing_shutdown_is_the_error_of_the_walk() {
    let log = log();
    let mut stages = (Recorded::new("s0", &log), ());
    let mut state = state_with_entries(1);
    state.set_corpus_id(CorpusId(0)).unwrap();
    state.request_stop();
    let mut manager = Manager { shutdowns: 0, fail_shutdown: true };
    assert_eq!(walk(&mut stages, &mut state, &mut manager), Err(Error::Other));
    assert_eq!(manager.shutdowns, 1);
    assert!(!state.stop_requested());
}

#[test]
fn check_stop_does_nothing_without_a_request() {
    let mut state = state_with_entries(0);
    let mut manager = Manager::default();
    assert_eq!(check_stop(&mut state, &mut manager), Ok(()));
    assert_eq!(manager.shutdowns, 0);
    state.request_stop();
    assert_eq!(check_stop(&mut state, &mut manager), Err(Error::ShuttingDown));
    assert_eq!(manager.shutdowns, 1);
    assert_eq!(check_stop(&mut state, &mut manager), Ok(()));
}

#[test]
fn the_end_of_a_tuple_refuses_an_unfinished_resume() {
    let mut state = state_with_entries(0);
    let mut manager = Manager::default();
    assert_eq!(walk(&mut (), &mut state, &mut manager), Ok(()));
    assert_eq!(<() as StagesTuple<(), Manager, State, ()>>::len(&()), 0);

    state.set_current_stage_idx(StageId(0)).unwrap();
    assert_eq!(walk(&mut (), &mut state, &mut manager), Err(Error::IllegalState));
    assert_eq!(state.current_stage_idx(), Ok(Some(StageId(0))));

    // an index that no stage of the tuple answers to falls off the end
    let log = log();
    let mut stages = (Recorded::new("s0", &log), (Recorded::new("s1", &log), ()));
    assert_eq!(walk(&mut stages, &mut state, &mut manager), Err(Error::IllegalState));
    assert!(taken(&log).is_empty());
}

#[test]
fn an_index_beyond_the_tuple_is_an_illegal_state() {
    let log = log();
    let mut stages = (Recorded::new("s0", &log), (Recorded::new("s1", &log), ()));
    let mut state = state_with_entries(1);
    state.set_corpus_id(CorpusId(0)).unwrap();
    state.set_current_stage_idx(StageId(3)).unwrap();
    let mut manager = Manager::default();
    assert_eq!(walk(&mut stages, &mut state, &mut manager), Err(Error::IllegalState));
    assert!(taken(&log).is_empty());
    assert_eq!(state.current_stage_idx(), Ok(Some(StageId(3))));
}

#[test]
fn perform_head_passes_over_runs_or_refuses() {
    let log = log();
    let mut head = Recorded::new("h", &log);
    let mut state = state_with_entries(1);
    state.set_corpus_id(CorpusId(0)).unwrap();
    let mut manager = Manager::default();

    state.set_current_stage_idx(StageId(1)).unwrap();
    assert_eq!(perform_head(&mut head, 2, &mut (), &mut (), &mut state, &mut manager), Ok(()));
    assert!(taken(&log).is_empty());
    assert_eq!(state.current_stage_idx(), Ok(Some(StageId(1))));

    state.set_current_stage_idx(StageId(2)).unwrap();
    assert_eq!(perform_head(&mut head, 2, &mut (), &mut (), &mut state, &mut manager), Ok(()));
    assert_eq!(taken(&log), vec!["h:restart=Ok(true)", "h:perform", "h:clear"]);
    assert_eq!(state.current_stage_idx(), Ok(None));
    assert_eq!(head.seen_stage_idx, vec![Some(StageId(2))]);
}

#[test]
fn a_vector_of_stages_runs_each_in_order() {
    let log = log();
    let mut stages = vec![Recorded::new("a", &log), Recorded::new("b", &log), Recorded::new("c", &log)];
    assert_eq!(StagesTuple::<(), Manager, State, ()>::len(&stages), 3);
    let mut state = state_with_entries(1);
    state.set_corpus_id(CorpusId(0)).unwrap();
    let mut manager = Manager::default();

    assert_eq!(walk(&mut stages, &mut state, &mut manager), Ok(()));
    assert_eq!(
        taken(&log),
        vec![
            "a:restart=Ok(true)", "a:perform", "a:clear",
            "b:restart=Ok(true)", "b:perform", "b:clear",
            "c:restart=Ok(true)", "c:perform", "c:clear",
        ]
    );
    // the stage index takes no part
    assert!(stages.iter().all(|s| s.seen_stage_idx == vec![None]));

    // a stop request is honoured before the next stage
    stages[0].request_stop = true;
    assert_eq!(walk(&mut stages, &mut state, &mut manager), Err(Error::ShuttingDown));
    assert_eq!(taken(&log), vec!["a:restart=Ok(true)", "a:perform", "a:clear"]);
    assert_eq!(manager.shutdowns, 1);

    // an error ends the walk
    stages[0].request_stop = false;
    stages[1].fail = true;
    assert_eq!(walk(&mut stages, &mut state, &mut manager), Err(Error::Other));
    assert_eq!(
        taken(&log),
        vec!["a:restart=Ok(true)", "a:perform", "a:clear", "b:restart=Ok(true)", "b:perform"]
    );

    // walking from a position leaves the earlier stages alone
    stages[1].fail = false;
    assert_eq!(perform_from(&mut stages, 2, &mut (), &mut (), &mut state, &mut manager), Ok(()));
    assert_eq!(taken(&log), vec!["c:restart=Ok(true)", "c:perform", "c:clear"]);
    assert_eq!(perform_from(&mut stages, 3, &mut (), &mut (), &mut state, &mut manager), Ok(()));
    assert!(taken(&log).is_empty());
}

#[test]
fn a_stop_request_before_the_last_vector_stage_is_seen_but_not_after_it() {
    let log = log();
    let mut stages = vec![Recorded::new("a", &log)];
    stages[0].request_stop = true;
    let mut state = state_with_entries(1);
    state.set_corpus_id(CorpusId(0)).unwrap();
    let mut manager = Manager::default();
    assert_eq!(walk(&mut stages, &mut state, &mut manager), Ok(()));
    assert!(state.stop_requested());
    assert_eq!(manager.shutdowns, 0);
}

#[test]
fn closure_stage_runs_once_per_round() {
    let calls = Rc::new(RefCell::new(0usize));
    let seen = calls.clone();
    let name = format!("{CLOSURE_STAGE_NAME}:{}", 0);
    let mut stage = ClosureStage::new(
        move |_: &mut (), _: &mut (), state: &mut State, _: &mut Manager| {
            *seen.borrow_mut() += 1;
            *state.executions_mut() += 10;
            Ok(())
        },
        name.clone(),
    );
    assert_eq!(stage.name(), "closure:0");
    let mut state = state_with_entries(1);
    state.set_corpus_id(CorpusId(0)).unwrap();
    let mut manager = Manager::default();

    for round in 1..=3u64 {
        assert_eq!(stage.perform_restartable(&mut (), &mut (), &mut state, &mut manager), Ok(()));
        assert_eq!(*calls.borrow(), round as usize);
        assert_eq!(*state.executions(), 10 * round);
    }

    // asked again without the round having ended, the closure is not run
    assert_eq!(stage.should_restart(&mut state), Ok(true));
    assert_eq!(stage.perform_restartable(&mut (), &mut (), &mut state, &mut manager), Ok(()));
    assert_eq!(*calls.borrow(), 3);
    assert!(state.named_metadata.retry_count.get(&name).unwrap().is_skipped(CorpusId(0)));
}

#[test]
fn closure_stage_hands_on_the_error_of_its_closure() {
    let mut stage = ClosureStage::new(
        |_: &mut (), _: &mut (), _: &mut State, _: &mut Manager| Err(Error::Executor),
        String::from("failing"),
    );
    let mut state = state_with_entries(1);
    state.set_corpus_id(CorpusId(0)).unwrap();
    let mut manager = Manager::default();
    assert_eq!(
        stage.perform_restartable(&mut (), &mut (), &mut state, &mut manager),
        Err(Error::Executor)
    );
    // not cleared: the count stays where should_restart left it
    assert_eq!(
        state.named_metadata.retry_count.get("failing").unwrap().tries_remaining(),
        Some(1)
    );
}

#[test]
fn walk_without_a_current_corpus_entry_fails_in_the_first_stage() {
    let log = log();
    let mut stages = (Recorded::new("s0", &log), ());
    let mut state = state_with_entries(1);
    let mut manager = Manager::default();
    assert_eq!(walk(&mut stages, &mut state, &mut manager), Err(Error::IllegalState));
    assert_eq!(taken(&log), vec!["s0:restart=Err(IllegalState)"]);
    assert_eq!(state.current_stage_idx(), Ok(Some(StageId(1))));
}
