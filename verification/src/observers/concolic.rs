//! The observer of a concolic run: it holds the trace that the run wrote.

use vstd::prelude::*;
use vstd::slice::slice_to_vec;
use crate::corpus::ConcolicMetadata;
use crate::observers::{AnyObserver, Handle, Handled, Observer};

verus! {

/// An observer that holds the trace of the last concolic run.
#[derive(Debug)]
pub struct ConcolicObserver {
    /// The name of the observer.
    pub name: String,
    /// The trace of the last run.
    pub map: Vec<u8>,
}

impl ConcolicObserver {
    /// An observer called `name` over the trace `map`.
    pub fn new(name: String, map: Vec<u8>) -> (observer: Self)
        ensures
            observer.name == name,
            observer.map == map,
    {
        ConcolicObserver { name, map }
    }

    /// A copy of the trace as it is now, as metadata for a testcase.
    pub fn create_metadata_from_current_map(&self) -> (metadata: ConcolicMetadata)
        ensures
            metadata.buffer@ == self.map@,
    {
        ConcolicMetadata::from_buffer(slice_to_vec(self.map.as_slice()))
    }
}

impl Observer for ConcolicObserver {
    open spec fn name_of(self) -> Seq<char> {
        self.name@
    }

    open spec fn wants_stdout(self) -> bool {
        false
    }

    open spec fn wants_stderr(self) -> bool {
        false
    }

    open spec fn stdout_seen(pre: Self, stdout: Seq<u8>, post: Self) -> bool {
        post == pre
    }

    open spec fn stderr_seen(pre: Self, stderr: Seq<u8>, post: Self) -> bool {
        post == pre
    }

    fn name(&self) -> (name: &String) {
        &self.name
    }

    fn observes_stdout(&mut self) -> (r: bool) {
        false
    }

    fn observes_stderr(&mut self) -> (r: bool) {
        false
    }

    fn observe_stdout(&mut self, stdout: &[u8]) {
    }

    fn observe_stderr(&mut self, stderr: &[u8]) {
    }
}

impl Handled for ConcolicObserver {
    open spec fn select(any: AnyObserver) -> Option<Self> {
        match any {
            AnyObserver::Concolic(o) => Some(o),
            _ => None,
        }
    }

    fn downcast(any: &AnyObserver) -> (r: Option<&Self>) {
        match any {
            AnyObserver::Concolic(o) => Some(o),
            _ => None,
        }
    }

    fn handle(&self) -> (handle: Handle<Self>) {
        Handle::new(self.name.clone())
    }
}

} // verus!
