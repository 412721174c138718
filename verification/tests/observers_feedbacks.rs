use fuzz_core::corpus::{ConcolicMetadata, CorpusId, Testcase};
use fuzz_core::error::Error;
use fuzz_core::executors::ExitKind;
use fuzz_core::feedbacks::concolic::ConcolicFeedback;
use fuzz_core::feedbacks::nautilus::{
    ChunkStore, Context, NautilusChunksMetadata, NautilusContext, NautilusFeedback, NautilusInput,
    Tree,
};
use fuzz_core::feedbacks::{evaluate, EagerOrFeedback, Feedback};
use fuzz_core::observers::concolic::ConcolicObserver;
use fuzz_core::observers::stdio::{StdErrObserver, StdOutObserver};
use fuzz_core::observers::{AnyObserver, Handle, Handled, Observer, ObserverSet};
use fuzz_core::state::StdState;

type Input = Vec<u8>;
type State = StdState<Input>;

fn observers() -> ObserverSet {
    ObserverSet::new(vec![
        AnyObserver::Concolic(ConcolicObserver::new(String::from("concolic"), vec![1, 2, 3])),
        AnyObserver::StdOut(StdOutObserver::new(String::from("out"))),
        AnyObserver::StdErr(StdErrObserver::new(String::from("err"))),
        AnyObserver::StdOut(StdOutObserver::new(String::from("shared"))),
        AnyObserver::StdErr(StdErrObserver::new(String::from("shared"))),
    ])
}

#[test]
fn std_observers_start_empty_and_keep_the_last_output() {
    let mut out = StdOutObserver::new(String::from("out"));
    assert_eq!(out.name, "out");
    assert_eq!(out.name(), "out");
    assert_eq!(out.stdout, None);
    assert!(out.observes_stdout());
    assert!(!out.observes_stderr());
    out.observe_stdout(b"first");
    out.observe_stdout(b"second");
    assert_eq!(out.stdout.as_deref(), Some(&b"second"[..]));
    out.observe_stderr(b"ignored");
    assert_eq!(out.stdout.as_deref(), Some(&b"second"[..]));

    let mut err = StdErrObserver::new(String::from("err"));
    assert_eq!(err.name, "err");
    assert_eq!(err.stderr, None);
    assert!(err.observes_stderr());
    assert!(!err.observes_stdout());
    err.observe_stdout(b"ignored");
    assert_eq!(err.stderr, None);
    err.observe_stderr(b"");
    assert_eq!(err.stderr, Some(vec![]));
    err.observe_stderr(b"oops");
    assert_eq!(err.stderr, Some(b"oops".to_vec()));
}

#[test]
fn a_handle_finds_what_was_registered_under_its_name_and_type() {
    let set = observers();
    assert_eq!(set.len(), 5);

    let out: Handle<StdOutObserver> = Handle::new(String::from("out"));
    assert_eq!(set.get(&out).map(|o| o.name.as_str()), Some("out"));

    // the name alone does not do: the type has to fit
    let out_as_err: Handle<StdErrObserver> = Handle::new(String::from("out"));
    assert!(set.get(&out_as_err).is_none());
    let concolic_as_out: Handle<StdOutObserver> = Handle::new(String::from("concolic"));
    assert!(set.get(&concolic_as_out).is_none());

    // nor the type alone
    let missing: Handle<StdOutObserver> = Handle::new(String::from("nobody"));
    assert!(set.get(&missing).is_none());

    // one name, two types: each handle finds its own
    let shared_out: Handle<StdOutObserver> = Handle::new(String::from("shared"));
    let shared_err: Handle<StdErrObserver> = Handle::new(String::from("shared"));
    assert!(std::ptr::eq(
        set.get(&shared_out).unwrap(),
        match &set.observers[3] {
            AnyObserver::StdOut(o) => o,
            _ => unreachable!(),
        }
    ));
    assert!(std::ptr::eq(
        set.get(&shared_err).unwrap(),
        match &set.observers[4] {
            AnyObserver::StdErr(o) => o,
            _ => unreachable!(),
        }
    ));

    assert!(ObserverSet::new(vec![]).get(&out).is_none());
}

#[test]
fn the_handle_of_an_observer_finds_that_observer() {
    let observer = ConcolicObserver::new(String::from("trace"), vec![9, 9]);
    let handle = observer.handle();
    assert_eq!(handle.name(), "trace");
    let set = ObserverSet::new(vec![
        AnyObserver::StdOut(StdOutObserver::new(String::from("trace"))),
        AnyObserver::Concolic(observer),
    ]);
    let found = set.get(&handle).unwrap();
    assert_eq!(found.map, vec![9, 9]);
    assert!(std::ptr::eq(
        found,
        match &set.observers[1] {
            AnyObserver::Concolic(o) => o,
            _ => unreachable!(),
        }
    ));
    assert_eq!(StdOutObserver::new(String::from("a")).handle().name(), "a");
    assert_eq!(StdErrObserver::new(String::from("b")).handle().name(), "b");
}

#[test]
fn the_set_forwards_output_to_those_who_want_it() {
    let mut set = observers();
    assert!(set.observes_stdout());
    assert!(set.observes_stderr());
    set.pre_exec_all(&vec![0u8]);
    set.observe_stdout(b"hello");
    set.observe_stderr(b"world");
    set.post_exec_all(&vec![0u8], &ExitKind::Okay);

    let out: Handle<StdOutObserver> = Handle::new(String::from("out"));
    let shared_out: Handle<StdOutObserver> = Handle::new(String::from("shared"));
    let err: Handle<StdErrObserver> = Handle::new(String::from("err"));
    let concolic: Handle<ConcolicObserver> = Handle::new(String::from("concolic"));
    assert_eq!(set.get(&out).unwrap().stdout, Some(b"hello".to_vec()));
    assert_eq!(set.get(&shared_out).unwrap().stdout, Some(b"hello".to_vec()));
    assert_eq!(set.get(&err).unwrap().stderr, Some(b"world".to_vec()));
    assert_eq!(set.get(&concolic).unwrap().map, vec![1, 2, 3]);
    assert_eq!(set.len(), 5);
    assert_eq!(set.observers[0].name(), "concolic");

    let mut quiet = ObserverSet::new(vec![AnyObserver::Concolic(ConcolicObserver::new(
        String::from("c"),
        vec![],
    ))]);
    assert!(!quiet.observes_stdout());
    assert!(!quiet.observes_stderr());
    let mut only_err =
        ObserverSet::new(vec![AnyObserver::StdErr(StdErrObserver::new(String::from("e")))]);
    assert!(!only_err.observes_stdout());
    assert!(only_err.observes_stderr());
}

/// A stand-in for a coverage feedback: it finds interesting what it is told
/// to, and counts how often it is asked.
struct Coverage {
    interesting: bool,
    judged: usize,
    appended: usize,
    fail_append: bool,
}

impl Coverage {
    fn new(interesting: bool) -> Self {
        Coverage { interesting, judged: 0, appended: 0, fail_append: false }
    }
}

impl Feedback<(), Input, ObserverSet, State> for Coverage {
    fn is_interesting(
        &mut self,
        _state: &mut State,
        _manager: &mut (),
        _input: &Input,
        _observers: &ObserverSet,
        _exit_kind: &ExitKind,
    ) -> Result<bool, Error> {
        self.judged += 1;
        Ok(self.interesting)
    }

    fn append_metadata(
        &mut self,
        _state: &mut State,
        _manager: &mut (),
        _observers: &ObserverSet,
        _testcase: &mut Testcase<Input>,
    ) -> Result<(), Error> {
        self.appended += 1;
        if self.fail_append {
            Err(Error::Serialization)
        } else {
            Ok(())
        }
    }
}

fn concolic_feedback(set: &ObserverSet) -> ConcolicFeedback {
    match &set.observers[0] {
        AnyObserver::Concolic(o) => ConcolicFeedback::from_observer(o),
        _ => unreachable!(),
    }
}

#[test]
fn concolic_feedback_composition() {
    let set = observers();
    let mut feedback = EagerOrFeedback::new(Coverage::new(true), concolic_feedback(&set));
    let mut state: State = StdState::new(0);

    let r = evaluate(&mut feedback, &mut state, &mut (), vec![0xC0], &set, &ExitKind::Okay);

    // kept, because coverage said so
    assert_eq!(r, Ok((true, Some(CorpusId(0)))));
    assert_eq!(state.corpus().count(), 1);
    let kept = state.corpus().get(CorpusId(0)).unwrap();
    assert_eq!(kept.input(), &Some(vec![0xC0]));
    // and it carries the trace of the concolic observer
    assert_eq!(kept.metadata_map().concolic.as_ref().map(|m| m.buffer.clone()), Some(vec![1, 2, 3]));
    // each feedback judged once and appended once
    assert_eq!((feedback.first.judged, feedback.first.appended), (1, 1));
}

#[test]
fn what_is_not_interesting_is_not_kept() {
    let set = observers();
    let mut feedback = EagerOrFeedback::new(Coverage::new(false), concolic_feedback(&set));
    let mut state: State = StdState::new(0);
    let r = evaluate(&mut feedback, &mut state, &mut (), vec![1], &set, &ExitKind::Crash);
    assert_eq!(r, Ok((false, None)));
    assert_eq!(state.corpus().count(), 0);
    assert_eq!((feedback.first.judged, feedback.first.appended), (1, 0));

    // the concolic feedback alone keeps nothing
    let mut alone = concolic_feedback(&set);
    let r = evaluate(&mut alone, &mut state, &mut (), vec![1], &set, &ExitKind::Okay);
    assert_eq!(r, Ok((false, None)));
    assert_eq!(alone.last_result(), Ok(false));
    assert_eq!(alone.name(), "concolic");
}

#[test]
fn eager_or_asks_both_and_appends_in_order() {
    let set = observers();
    let mut both = EagerOrFeedback::new(Coverage::new(false), Coverage::new(true));
    let mut state: State = StdState::new(0);
    assert_eq!(
        both.is_interesting(&mut state, &mut (), &vec![], &set, &ExitKind::Okay),
        Ok(true)
    );
    assert_eq!((both.first.judged, both.second.judged), (1, 1));

    let mut testcase = Testcase::new(vec![1u8]);
    assert_eq!(both.append_metadata(&mut state, &mut (), &set, &mut testcase), Ok(()));
    assert_eq!((both.first.appended, both.second.appended), (1, 1));

    // the first to fail ends the call
    both.first.fail_append = true;
    assert_eq!(
        both.append_metadata(&mut state, &mut (), &set, &mut testcase),
        Err(Error::Serialization)
    );
    assert_eq!((both.first.appended, both.second.appended), (2, 1));

    // a testcase whose metadata could not be added is not kept
    let r = evaluate(&mut both, &mut state, &mut (), vec![5], &set, &ExitKind::Okay);
    assert_eq!(r, Err(Error::Serialization));
    assert_eq!(state.corpus().count(), 0);
}

#[test]
fn concolic_metadata_added_twice_is_the_same_metadata() {
    let set = observers();
    let mut feedback = concolic_feedback(&set);
    let mut state: State = StdState::new(0);
    let mut testcase = Testcase::new(vec![1u8]);
    assert!(testcase.metadata_map().concolic.is_none());

    assert_eq!(feedback.append_metadata(&mut state, &mut (), &set, &mut testcase), Ok(()));
    let once = testcase.metadata_map().concolic.as_ref().unwrap().buffer.clone();
    assert_eq!(feedback.append_metadata(&mut state, &mut (), &set, &mut testcase), Ok(()));
    let twice = testcase.metadata_map().concolic.as_ref().unwrap().buffer.clone();
    assert_eq!(once, vec![1, 2, 3]);
    assert_eq!(once, twice);
    assert_eq!(testcase.input(), &Some(vec![1u8]));
}

#[test]
fn concolic_feedback_without_its_observer_leaves_the_testcase_alone() {
    let set = ObserverSet::new(vec![AnyObserver::StdOut(StdOutObserver::new(String::from(
        "concolic",
    )))]);
    let mut feedback = ConcolicFeedback { observer_handle: Handle::new(String::from("concolic")) };
    let mut state: State = StdState::new(0);
    let mut testcase = Testcase::new(vec![1u8]);
    assert_eq!(feedback.append_metadata(&mut state, &mut (), &set, &mut testcase), Ok(()));
    assert!(testcase.metadata_map().concolic.is_none());

    let previous = testcase.metadata_map_mut().insert_concolic(ConcolicMetadata::from_buffer(vec![4]));
    assert!(previous.is_none());
    assert_eq!(feedback.append_metadata(&mut state, &mut (), &set, &mut testcase), Ok(()));
    assert_eq!(testcase.metadata_map().concolic.as_ref().unwrap().buffer, vec![4]);
}

fn tree(rules: &[usize]) -> Tree {
    Tree { rules: rules.to_vec(), sizes: vec![rules.len(); rules.len()], paren: vec![0; rules.len()] }
}

#[test]
fn nautilus_feedback_collects_the_tree_of_the_testcase() {
    let context = NautilusContext { ctx: Context { rule_count: 3 } };
    let mut feedback = NautilusFeedback::new(&context);
    assert_eq!(feedback.ctx.rule_count, 3);
    assert_eq!(feedback.name(), "NautilusFeedback");
    assert_eq!(feedback.last_result(), Ok(false));

    let mut state: StdState<NautilusInput> = StdState::new(0);
    state.metadata.nautilus_chunks = Some(NautilusChunksMetadata::new(String::from("/work")));
    let mut testcase = Testcase::new(NautilusInput { tree: tree(&[0, 2, 1]) });

    let input = NautilusInput { tree: tree(&[0]) };
    assert_eq!(
        Feedback::<(), NautilusInput, (), _>::is_interesting(
            &mut feedback, &mut state, &mut (), &input, &(), &ExitKind::Okay
        ),
        Ok(false)
    );

    assert_eq!(feedback.append_metadata(&mut state, &mut (), &(), &mut testcase), Ok(()));
    {
        let store = &state.metadata.nautilus_chunks.as_ref().unwrap().cks;
        assert_eq!(store.work_dir, "/work");
        assert_eq!(store.trees.len(), 1);
        assert_eq!(store.trees[0].rules, vec![0, 2, 1]);
        assert_eq!(store.trees[0].sizes, vec![3, 3, 3]);
        assert_eq!(store.trees[0].paren, vec![0, 0, 0]);
    }
    // the testcase keeps its tree
    assert_eq!(testcase.input().as_ref().unwrap().tree.rules, vec![0, 2, 1]);

    // appending again adds the tree again: this feedback is not idempotent
    assert_eq!(feedback.append_metadata(&mut state, &mut (), &(), &mut testcase), Ok(()));
    assert_eq!(state.metadata.nautilus_chunks.as_ref().unwrap().cks.trees.len(), 2);
}

#[test]
fn nautilus_feedback_needs_an_input_and_a_chunk_store() {
    let context = NautilusContext { ctx: Context { rule_count: 0 } };
    let mut feedback = NautilusFeedback::new(&context);

    let mut state: StdState<NautilusInput> = StdState::new(0);
    let mut testcase = Testcase::new(NautilusInput { tree: tree(&[1]) });
    assert_eq!(
        feedback.append_metadata(&mut state, &mut (), &(), &mut testcase),
        Err(Error::IllegalState)
    );
    assert!(state.metadata.nautilus_chunks.is_none());

    state.metadata.nautilus_chunks = Some(NautilusChunksMetadata::new(String::new()));
    let mut empty = Testcase { input: None, ..Testcase::new(NautilusInput { tree: tree(&[]) }) };
    assert_eq!(
        feedback.append_metadata(&mut state, &mut (), &(), &mut empty),
        Err(Error::IllegalState)
    );
    assert!(state.metadata.nautilus_chunks.as_ref().unwrap().cks.trees.is_empty());
}

#[test]
fn chunk_store_keeps_trees_in_the_order_they_came() {
    let ctx = Context { rule_count: 2 };
    let mut store = ChunkStore::new(String::from("dir"));
    store.add_tree(tree(&[1]), &ctx);
    store.add_tree(tree(&[0, 1]), &ctx);
    assert_eq!(store.trees.len(), 2);
    assert_eq!(store.trees[0].rules, vec![1]);
    assert_eq!(store.trees[1].rules, vec![0, 1]);
    let copy = store.trees[1].duplicate();
    assert_eq!((copy.rules, copy.sizes, copy.paren), (vec![0, 1], vec![2, 2], vec![0, 0]));
}
