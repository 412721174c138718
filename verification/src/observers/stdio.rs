//! Observers that keep what the target wrote to its standard output and
//! standard error. The executor must support them.

use vstd::prelude::*;
use vstd::slice::slice_to_vec;
use crate::observers::{AnyObserver, Handle, Handled, Observer};

verus! {

/// An observer that keeps the standard output of the last run.
#[derive(Debug)]
pub struct StdOutObserver {
    /// The name of the observer.
    pub name: String,
    /// The standard output of the target during its last run.
    pub stdout: Option<Vec<u8>>,
}

impl StdOutObserver {
    /// An observer called `name` that has seen no output yet.
    pub fn new(name: String) -> (observer: Self)
        ensures
            observer.name == name,
            observer.stdout is None,
    {
        StdOutObserver { name, stdout: None }
    }
}

impl Observer for StdOutObserver {
    open spec fn name_of(self) -> Seq<char> {
        self.name@
    }

    open spec fn wants_stdout(self) -> bool {
        true
    }

    open spec fn wants_stderr(self) -> bool {
        false
    }

    /// The observer keeps the bytes, in place of what it kept before.
    open spec fn stdout_seen(pre: Self, stdout: Seq<u8>, post: Self) -> bool {
        post.name == pre.name && post.stdout is Some && post.stdout->0@ == stdout
    }

    open spec fn stderr_seen(pre: Self, stderr: Seq<u8>, post: Self) -> bool {
        post == pre
    }

    fn name(&self) -> (name: &String) {
        &self.name
    }

    fn observes_stdout(&mut self) -> (r: bool) {
        true
    }

    fn observes_stderr(&mut self) -> (r: bool) {
        false
    }

    fn observe_stdout(&mut self, stdout: &[u8]) {
        self.stdout = Some(slice_to_vec(stdout));
    }

    fn observe_stderr(&mut self, stderr: &[u8]) {
    }
}

impl Handled for StdOutObserver {
    open spec fn select(any: AnyObserver) -> Option<Self> {
        match any {
            AnyObserver::StdOut(o) => Some(o),
            _ => None,
        }
    }

    fn downcast(any: &AnyObserver) -> (r: Option<&Self>) {
        match any {
            AnyObserver::StdOut(o) => Some(o),
            _ => None,
        }
    }

    fn handle(&self) -> (handle: Handle<Self>) {
        Handle::new(self.name.clone())
    }
}

/// An observer that keeps the standard error of the last run.
#[derive(Debug)]
pub struct StdErrObserver {
    /// The name of the observer.
    pub name: String,
    /// The standard error of the target during its last run.
    pub stderr: Option<Vec<u8>>,
}

impl StdErrObserver {
    /// An observer called `name` that has seen no output yet.
    pub fn new(name: String) -> (observer: Self)
        ensures
            observer.name == name,
            observer.stderr is None,
    {
        StdErrObserver { name, stderr: None }
    }
}

impl Observer for StdErrObserver {
    open spec fn name_of(self) -> Seq<char> {
        self.name@
    }

    open spec fn wants_stdout(self) -> bool {
        false
    }

    open spec fn wants_stderr(self) -> bool {
        true
    }

    open spec fn stdout_seen(pre: Self, stdout: Seq<u8>, post: Self) -> bool {
        post == pre
    }

    /// The observer keeps the bytes, in place of what it kept before.
    open spec fn stderr_seen(pre: Self, stderr: Seq<u8>, post: Self) -> bool {
        post.name == pre.name && post.stderr is Some && post.stderr->0@ == stderr
    }

    fn name(&self) -> (name: &String) {
        &self.name
    }

    fn observes_stdout(&mut self) -> (r: bool) {
        false
    }

    fn observes_stderr(&mut self) -> (r: bool) {
        true
    }

    fn observe_stdout(&mut self, stdout: &[u8]) {
    }

    fn observe_stderr(&mut self, stderr: &[u8]) {
        self.stderr = Some(slice_to_vec(stderr));
    }
}

impl Handled for StdErrObserver {
    open spec fn select(any: AnyObserver) -> Option<Self> {
        match any {
            AnyObserver::StdErr(o) => Some(o),
            _ => None,
        }
    }

    fn downcast(any: &AnyObserver) -> (r: Option<&Self>) {
        match any {
            AnyObserver::StdErr(o) => Some(o),
            _ => None,
        }
    }

    fn handle(&self) -> (handle: Handle<Self>) {
        Handle::new(self.name.clone())
    }
}

} // verus!
