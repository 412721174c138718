//! Observers record something about each run of the target. An executor
//! owns a fixed set of them; feedbacks read them by handle after the run.

use vstd::prelude::*;
use crate::executors::ExitKind;
use crate::observers::concolic::ConcolicObserver;
use crate::observers::stdio::{StdErrObserver, StdOutObserver};
use core::marker::PhantomData;

pub mod concolic;
pub mod stdio;

verus! {

/// A named sink that an executor updates around each run. Every hook is
/// opt-in: an observer that does not care leaves itself as it is.
pub trait Observer: Sized {
    /// The name of the observer.
    spec fn name_of(self) -> Seq<char>;

    /// Whether the observer wants the standard output of the target.
    spec fn wants_stdout(self) -> bool;

    /// Whether the observer wants the standard error of the target.
    spec fn wants_stderr(self) -> bool;

    /// What being shown the standard output `stdout` does to the observer.
    spec fn stdout_seen(pre: Self, stdout: Seq<u8>, post: Self) -> bool;

    /// What being shown the standard error `stderr` does to the observer.
    spec fn stderr_seen(pre: Self, stderr: Seq<u8>, post: Self) -> bool;

    /// The name of the observer.
    fn name(&self) -> (name: &String)
        ensures
            name@ == self.name_of(),
    ;

    /// Whether the observer wants the standard output of the target.
    fn observes_stdout(&mut self) -> (r: bool)
        ensures
            r == old(self).wants_stdout(),
            *final(self) == *old(self),
    ;

    /// Whether the observer wants the standard error of the target.
    fn observes_stderr(&mut self) -> (r: bool)
        ensures
            r == old(self).wants_stderr(),
            *final(self) == *old(self),
    ;

    /// Shows the observer the standard output of the last run.
    fn observe_stdout(&mut self, stdout: &[u8])
        ensures
            Self::stdout_seen(*old(self), stdout@, *final(self)),
    ;

    /// Shows the observer the standard error of the last run.
    fn observe_stderr(&mut self, stderr: &[u8])
        ensures
            Self::stderr_seen(*old(self), stderr@, *final(self)),
    ;
}

/// One of the observers that the core knows.
pub enum AnyObserver {
    /// Captures standard output.
    StdOut(StdOutObserver),
    /// Captures standard error.
    StdErr(StdErrObserver),
    /// Holds a concolic trace.
    Concolic(ConcolicObserver),
}

impl Observer for AnyObserver {
    open spec fn name_of(self) -> Seq<char> {
        match self {
            AnyObserver::StdOut(o) => o.name_of(),
            AnyObserver::StdErr(o) => o.name_of(),
            AnyObserver::Concolic(o) => o.name_of(),
        }
    }

    open spec fn wants_stdout(self) -> bool {
        match self {
            AnyObserver::StdOut(o) => o.wants_stdout(),
            AnyObserver::StdErr(o) => o.wants_stdout(),
            AnyObserver::Concolic(o) => o.wants_stdout(),
        }
    }

    open spec fn wants_stderr(self) -> bool {
        match self {
            AnyObserver::StdOut(o) => o.wants_stderr(),
            AnyObserver::StdErr(o) => o.wants_stderr(),
            AnyObserver::Concolic(o) => o.wants_stderr(),
        }
    }

    open spec fn stdout_seen(pre: Self, stdout: Seq<u8>, post: Self) -> bool {
        match pre {
            AnyObserver::StdOut(o) => post is StdOut && StdOutObserver::stdout_seen(
                o,
                stdout,
                post->StdOut_0,
            ),
            AnyObserver::StdErr(o) => post is StdErr && StdErrObserver::stdout_seen(
                o,
                stdout,
                post->StdErr_0,
            ),
            AnyObserver::Concolic(o) => post is Concolic && ConcolicObserver::stdout_seen(
                o,
                stdout,
                post->Concolic_0,
            ),
        }
    }

    open spec fn stderr_seen(pre: Self, stderr: Seq<u8>, post: Self) -> bool {
        match pre {
            AnyObserver::StdOut(o) => post is StdOut && StdOutObserver::stderr_seen(
                o,
                stderr,
                post->StdOut_0,
            ),
            AnyObserver::StdErr(o) => post is StdErr && StdErrObserver::stderr_seen(
                o,
                stderr,
                post->StdErr_0,
            ),
            AnyObserver::Concolic(o) => post is Concolic && ConcolicObserver::stderr_seen(
                o,
                stderr,
                post->Concolic_0,
            ),
        }
    }

    fn name(&self) -> (name: &String) {
        match self {
            AnyObserver::StdOut(o) => o.name(),
            AnyObserver::StdErr(o) => o.name(),
            AnyObserver::Concolic(o) => o.name(),
        }
    }

    fn observes_stdout(&mut self) -> (r: bool) {
        match self {
            AnyObserver::StdOut(o) => o.observes_stdout(),
            AnyObserver::StdErr(o) => o.observes_stdout(),
            AnyObserver::Concolic(o) => o.observes_stdout(),
        }
    }

    fn observes_stderr(&mut self) -> (r: bool) {
        match self {
            AnyObserver::StdOut(o) => o.observes_stderr(),
            AnyObserver::StdErr(o) => o.observes_stderr(),
            AnyObserver::Concolic(o) => o.observes_stderr(),
        }
    }

    fn observe_stdout(&mut self, stdout: &[u8]) {
        match self {
            AnyObserver::StdOut(o) => o.observe_stdout(stdout),
            AnyObserver::StdErr(o) => o.observe_stdout(stdout),
            AnyObserver::Concolic(o) => o.observe_stdout(stdout),
        }
    }

    fn observe_stderr(&mut self, stderr: &[u8]) {
        match self {
            AnyObserver::StdOut(o) => o.observe_stderr(stderr),
            AnyObserver::StdErr(o) => o.observe_stderr(stderr),
            AnyObserver::Concolic(o) => o.observe_stderr(stderr),
        }
    }
}

/// A token for one observer of a set: its name, and in its type the type of
/// the observer.
pub struct Handle<T> {
    /// The name of the observer.
    pub name: String,
    /// The type of the observer.
    pub phantom: PhantomData<T>,
}

impl<T> Handle<T> {
    /// The handle for the observer of type `T` called `name`.
    pub fn new(name: String) -> (handle: Self)
        ensures
            handle.name == name,
    {
        Handle { name, phantom: PhantomData }
    }

    /// The name of the observer.
    pub fn name(&self) -> (name: &String)
        ensures
            *name == self.name,
    {
        &self.name
    }
}

/// An observer type that can be told apart from the others in a set.
pub trait Handled: Observer {
    /// `any` as an observer of this type, if it is one.
    spec fn select(any: AnyObserver) -> Option<Self>;

    /// `any` as an observer of this type, if it is one.
    fn downcast(any: &AnyObserver) -> (r: Option<&Self>)
        ensures
            match r {
                Some(o) => Self::select(*any) == Some(*o),
                None => Self::select(*any) is None,
            },
    ;

    /// The handle by which this observer is found in a set.
    fn handle(&self) -> (handle: Handle<Self>)
        ensures
            handle.name@ == self.name_of(),
    ;
}

/// Whether `any` is the observer of type `T` called `name`.
pub open spec fn answers_to<T: Handled>(any: AnyObserver, name: Seq<char>) -> bool {
    T::select(any) is Some && T::select(any)->0.name_of() == name
}

/// The first observer of type `T` called `name` among `observers[k..]`.
pub open spec fn found_from<T: Handled>(observers: Seq<AnyObserver>, name: Seq<char>, k: int) -> Option<
    T,
>
    decreases observers.len() - k,
{
    if k < 0 || k >= observers.len() {
        None
    } else if answers_to::<T>(observers[k], name) {
        T::select(observers[k])
    } else {
        found_from::<T>(observers, name, k + 1)
    }
}

/// A handle finds an observer if and only if an observer of its type and
/// name is among those that were registered.
pub proof fn lemma_found_iff_registered<T: Handled>(observers: Seq<AnyObserver>, name: Seq<char>)
    ensures
        found_from::<T>(observers, name, 0) is Some <==> exists|i: int|
            0 <= i < observers.len() && answers_to::<T>(observers[i], name),
{
    lemma_found_from::<T>(observers, name, 0);
}

/// An observer that was registered, and is the only one of its type and
/// name, is the observer that its handle finds.
pub proof fn lemma_registered_is_found<T: Handled>(
    observers: Seq<AnyObserver>,
    name: Seq<char>,
    i: int,
)
    requires
        0 <= i < observers.len(),
        answers_to::<T>(observers[i], name),
        forall|j: int|
            0 <= j < observers.len() && j != i ==> !answers_to::<T>(#[trigger] observers[j], name),
    ensures
        found_from::<T>(observers, name, 0) == T::select(observers[i]),
{
    lemma_found_from::<T>(observers, name, 0);
}

/// What `found_from` finds is the first observer from `k` on that answers,
/// and it finds nothing only where none answers.
proof fn lemma_found_from<T: Handled>(observers: Seq<AnyObserver>, name: Seq<char>, k: int)
    requires
        0 <= k,
    ensures
        match found_from::<T>(observers, name, k) {
            Some(o) => exists|i: int|
                {
                    &&& k <= i < observers.len()
                    &&& answers_to::<T>(#[trigger] observers[i], name)
                    &&& T::select(observers[i]) == Some(o)
                    &&& forall|j: int| k <= j < i ==> !answers_to::<T>(#[trigger] observers[j], name)
                },
            None => forall|i: int|
                k <= i < observers.len() ==> !answers_to::<T>(#[trigger] observers[i], name),
        },
    decreases observers.len() - k,
{
    if k < observers.len() && !answers_to::<T>(observers[k], name) {
        lemma_found_from::<T>(observers, name, k + 1);
        match found_from::<T>(observers, name, k + 1) {
            Some(o) => {
                let i = choose|i: int|
                    {
                        &&& k + 1 <= i < observers.len()
                        &&& answers_to::<T>(#[trigger] observers[i], name)
                        &&& T::select(observers[i]) == Some(o)
                        &&& forall|j: int|
                            k + 1 <= j < i ==> !answers_to::<T>(#[trigger] observers[j], name)
                    };
                assert(k <= i < observers.len());
            },
            None => {},
        }
    } else if k < observers.len() {
        assert(answers_to::<T>(observers[k], name));
    }
}

/// The observers of an executor, in the order in which they were
/// registered. The set is fixed when it is made.
pub struct ObserverSet {
    /// The observers.
    pub observers: Vec<AnyObserver>,
}

impl ObserverSet {
    /// The set of the given observers.
    pub fn new(observers: Vec<AnyObserver>) -> (set: Self)
        ensures
            set.observers == observers,
    {
        ObserverSet { observers }
    }

    /// How many observers the set holds.
    pub fn len(&self) -> (n: usize)
        ensures
            n == self.observers@.len(),
    {
        self.observers.len()
    }

    /// The observer of type `T` that `handle` names: the first one of that
    /// type and name, or `None` where no such observer was registered.
    pub fn get<T: Handled>(&self, handle: &Handle<T>) -> (r: Option<&T>)
        ensures
            match r {
                Some(o) => found_from::<T>(self.observers@, handle.name@, 0) == Some(*o),
                None => found_from::<T>(self.observers@, handle.name@, 0) is None,
            },
    {
        let mut i: usize = 0;
        while i < self.observers.len()
            invariant
                i <= self.observers@.len(),
                found_from::<T>(self.observers@, handle.name@, 0) == found_from::<T>(
                    self.observers@,
                    handle.name@,
                    i as int,
                ),
            decreases self.observers@.len() - i,
        {
            match T::downcast(&self.observers[i]) {
                Some(observer) => {
                    if *observer.name() == handle.name {
                        return Some(observer);
                    }
                },
                None => {},
            }
            i += 1;
        }
        None
    }

    /// Whether any observer of the set wants the standard output.
    pub open spec fn any_wants_stdout(self) -> bool {
        exists|i: int| 0 <= i < self.observers@.len() && (#[trigger] self.observers@[i]).wants_stdout()
    }

    /// Whether any observer of the set wants the standard error.
    pub open spec fn any_wants_stderr(self) -> bool {
        exists|i: int| 0 <= i < self.observers@.len() && (#[trigger] self.observers@[i]).wants_stderr()
    }

    /// Whether any observer wants the standard output, so that an executor
    /// can skip the capture when none does.
    pub fn observes_stdout(&mut self) -> (r: bool)
        ensures
            r == old(self).any_wants_stdout(),
            final(self).observers@ == old(self).observers@,
    {
        let mut i: usize = 0;
        while i < self.observers.len()
            invariant
                i <= self.observers@.len(),
                self.observers@ == old(self).observers@,
                forall|k: int| 0 <= k < i ==> !(#[trigger] self.observers@[k]).wants_stdout(),
            decreases self.observers@.len() - i,
        {
            let ghost before = self.observers@;
            let wants = self.observers[i].observes_stdout();
            assert(self.observers@ =~= before);
            if wants {
                return true;
            }
            i += 1;
        }
        false
    }

    /// Whether any observer wants the standard error.
    pub fn observes_stderr(&mut self) -> (r: bool)
        ensures
            r == old(self).any_wants_stderr(),
            final(self).observers@ == old(self).observers@,
    {
        let mut i: usize = 0;
        while i < self.observers.len()
            invariant
                i <= self.observers@.len(),
                self.observers@ == old(self).observers@,
                forall|k: int| 0 <= k < i ==> !(#[trigger] self.observers@[k]).wants_stderr(),
            decreases self.observers@.len() - i,
        {
            let ghost before = self.observers@;
            let wants = self.observers[i].observes_stderr();
            assert(self.observers@ =~= before);
            if wants {
                return true;
            }
            i += 1;
        }
        false
    }

    /// Shows every observer the standard output of the last run.
    pub fn observe_stdout(&mut self, stdout: &[u8])
        ensures
            final(self).observers@.len() == old(self).observers@.len(),
            forall|i: int|
                0 <= i < old(self).observers@.len() ==> AnyObserver::stdout_seen(
                    old(self).observers@[i],
                    stdout@,
                    #[trigger] final(self).observers@[i],
                ),
    {
        let mut i: usize = 0;
        while i < self.observers.len()
            invariant
                i <= self.observers@.len(),
                self.observers@.len() == old(self).observers@.len(),
                forall|k: int|
                    0 <= k < i ==> AnyObserver::stdout_seen(
                        old(self).observers@[k],
                        stdout@,
                        #[trigger] self.observers@[k],
                    ),
                forall|k: int|
                    i <= k < self.observers@.len() ==> self.observers@[k] == old(self).observers@[k],
            decreases self.observers@.len() - i,
        {
            self.observers[i].observe_stdout(stdout);
            i += 1;
        }
    }

    /// Shows every observer the standard error of the last run.
    pub fn observe_stderr(&mut self, stderr: &[u8])
        ensures
            final(self).observers@.len() == old(self).observers@.len(),
            forall|i: int|
                0 <= i < old(self).observers@.len() ==> AnyObserver::stderr_seen(
                    old(self).observers@[i],
                    stderr@,
                    #[trigger] final(self).observers@[i],
                ),
    {
        let mut i: usize = 0;
        while i < self.observers.len()
            invariant
                i <= self.observers@.len(),
                self.observers@.len() == old(self).observers@.len(),
                forall|k: int|
                    0 <= k < i ==> AnyObserver::stderr_seen(
                        old(self).observers@[k],
                        stderr@,
                        #[trigger] self.observers@[k],
                    ),
                forall|k: int|
                    i <= k < self.observers@.len() ==> self.observers@[k] == old(self).observers@[k],
            decreases self.observers@.len() - i,
        {
            self.observers[i].observe_stderr(stderr);
            i += 1;
        }
    }

    /// The hook before a run. None of the observers of the core reacts to
    /// it.
    pub fn pre_exec_all<I>(&mut self, input: &I)
        ensures
            *final(self) == *old(self),
    {
    }

    /// The hook after a run. None of the observers of the core reacts to
    /// it.
    pub fn post_exec_all<I>(&mut self, input: &I, exit_kind: &ExitKind)
        ensures
            *final(self) == *old(self),
    {
    }
}

} // verus!
