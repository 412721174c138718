//! Testcases and the in-memory corpus that owns them.

use vstd::prelude::*;
use crate::error::Error;

verus! {

/// Identifies a testcase for the lifetime of its corpus.
#[derive(Clone, Copy, Debug, PartialEq, Eq, Hash, PartialOrd, Ord, Structural)]
pub struct CorpusId(pub usize);

/// The trace that a concolic run left behind, kept with the testcase that
/// produced it.
#[derive(Debug)]
pub struct ConcolicMetadata {
    /// The raw trace bytes.
    pub buffer: Vec<u8>,
}

impl ConcolicMetadata {
    /// Wraps a trace buffer.
    pub fn from_buffer(buffer: Vec<u8>) -> (m: ConcolicMetadata)
        ensures
            m.buffer == buffer,
    {
        ConcolicMetadata { buffer }
    }
}

/// The typed metadata of a testcase: one slot per metadata type.
#[derive(Debug)]
pub struct TestcaseMetadata {
    /// The concolic trace, if a feedback attached one.
    pub concolic: Option<ConcolicMetadata>,
}

impl TestcaseMetadata {
    /// A metadata map with every slot empty.
    pub fn new() -> (m: TestcaseMetadata)
        ensures
            m.concolic is None,
    {
        TestcaseMetadata { concolic: None }
    }

    /// Stores `metadata` in its slot and hands back what the slot held.
    pub fn insert_concolic(&mut self, metadata: ConcolicMetadata) -> (previous: Option<ConcolicMetadata>)
        ensures
            final(self).concolic == Some(metadata),
            previous == old(self).concolic,
    {
        let previous = self.concolic.take();
        self.concolic = Some(metadata);
        previous
    }
}

/// One input together with what the fuzzer learned about it.
#[derive(Debug)]
pub struct Testcase<I> {
    /// The input, if it is loaded.
    pub input: Option<I>,
    /// The metadata attached so far.
    pub metadata: TestcaseMetadata,
}

impl<I> Testcase<I> {
    /// A testcase that holds `input` and no metadata.
    pub fn new(input: I) -> (t: Testcase<I>)
        ensures
            t == (Testcase { input: Some(input), metadata: TestcaseMetadata { concolic: None } }),
    {
        Testcase { input: Some(input), metadata: TestcaseMetadata::new() }
    }

    /// The input, if it is loaded.
    pub fn input(&self) -> (r: &Option<I>)
        ensures
            *r == self.input,
    {
        &self.input
    }

    /// The metadata of this testcase.
    pub fn metadata_map(&self) -> (r: &TestcaseMetadata)
        ensures
            *r == self.metadata,
    {
        &self.metadata
    }

    /// The metadata of this testcase, for adding to it.
    pub fn metadata_map_mut(&mut self) -> (r: &mut TestcaseMetadata)
        ensures
            *r == old(self).metadata,
            *final(self) == (Testcase { metadata: *final(r), ..*old(self) }),
    {
        &mut self.metadata
    }
}

/// The inputs that the fuzzer chose to keep, in the order in which they were
/// added. The id of a testcase is its position, so ids stay valid as the
/// corpus grows.
#[derive(Debug)]
pub struct Corpus<I> {
    /// The testcases, indexed by id.
    pub entries: Vec<Testcase<I>>,
}

impl<I> Corpus<I> {
    /// An empty corpus.
    pub fn new() -> (c: Corpus<I>)
        ensures
            c.entries@.len() == 0,
    {
        Corpus { entries: Vec::new() }
    }

    /// How many testcases the corpus holds.
    pub fn count(&self) -> (n: usize)
        ensures
            n == self.entries@.len(),
    {
        self.entries.len()
    }

    /// Whether `id` names a testcase of this corpus.
    pub open spec fn has(&self, id: CorpusId) -> bool {
        id.0 < self.entries@.len()
    }

    /// Appends `testcase` and returns its id; earlier testcases keep theirs.
    pub fn add(&mut self, testcase: Testcase<I>) -> (r: Result<CorpusId, Error>)
        ensures
            r == Ok::<CorpusId, Error>(CorpusId(old(self).entries@.len() as usize)),
            final(self).entries@ == old(self).entries@.push(testcase),
    {
        let id = CorpusId(self.entries.len());
        self.entries.push(testcase);
        Ok(id)
    }

    /// The testcase with the given id, or `KeyNotFound`.
    pub fn get(&self, id: CorpusId) -> (r: Result<&Testcase<I>, Error>)
        ensures
            self.has(id) ==> r == Ok::<&Testcase<I>, Error>(&self.entries@[id.0 as int]),
            !self.has(id) ==> r == Err::<&Testcase<I>, Error>(Error::KeyNotFound),
    {
        if id.0 < self.entries.len() {
            Ok(&self.entries[id.0])
        } else {
            Err(Error::KeyNotFound)
        }
    }

    /// What `cloned_input_for_id` answers when it does not return a clone:
    /// `KeyNotFound` for an unknown id, `IllegalState` for a testcase whose
    /// input is not loaded.
    pub open spec fn input_failure(&self, id: CorpusId) -> Option<Error> {
        if !self.has(id) {
            Some(Error::KeyNotFound)
        } else if self.entries@[id.0 as int].input is None {
            Some(Error::IllegalState)
        } else {
            None
        }
    }

    /// A clone of the input of testcase `id`; the corpus itself is never
    /// handed out for mutation.
    pub fn cloned_input_for_id(&self, id: CorpusId) -> (r: Result<I, Error>) where I: Clone
        ensures
            match self.input_failure(id) {
                Some(e) => r == Err::<I, Error>(e),
                None => r is Ok && cloned(self.entries@[id.0 as int].input->0, r->Ok_0),
            },
    {
        if id.0 >= self.entries.len() {
            return Err(Error::KeyNotFound);
        }
        match &self.entries[id.0].input {
            Some(input) => Ok(input.clone()),
            None => Err(Error::IllegalState),
        }
    }
}

} // verus!
