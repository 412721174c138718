//! Metadata entries that are told apart by a name.

use vstd::prelude::*;

verus! {

/// A map from names to values of one metadata type. Each name occurs at most
/// once.
pub struct NamedMap<T> {
    entries: Vec<(String, T)>,
}

impl<T> NamedMap<T> {
    #[verifier::type_invariant]
    spec fn inv(self) -> bool {
        Self::distinct(self.entries@)
    }

    /// No two entries carry the same name.
    spec fn distinct(entries: Seq<(String, T)>) -> bool {
        forall|i: int, j: int| 0 <= i < j < entries.len() ==> entries[i].0@ != entries[j].0@
    }

    /// Where `name` is stored, if anywhere.
    closed spec fn position(self, name: Seq<char>) -> int {
        choose|i: int| 0 <= i < self.entries@.len() && self.entries@[i].0@ == name
    }

    /// Whether an entry called `name` exists.
    pub closed spec fn has(self, name: Seq<char>) -> bool {
        exists|i: int| 0 <= i < self.entries@.len() && self.entries@[i].0@ == name
    }

    /// The value stored under `name`.
    pub closed spec fn value(self, name: Seq<char>) -> T
        recommends
            self.has(name),
    {
        self.entries@[self.position(name)].1
    }

    /// The entry called `name`, if there is one.
    pub open spec fn lookup(self, name: Seq<char>) -> Option<T> {
        if self.has(name) {
            Some(self.value(name))
        } else {
            None
        }
    }

    /// A map without entries.
    pub fn new() -> (m: NamedMap<T>)
        ensures
            forall|name: Seq<char>| !m.has(name),
    {
        NamedMap { entries: Vec::new() }
    }

    fn find(&self, name: &str) -> (r: Option<usize>)
        ensures
            match r {
                Some(i) => self.has(name@) && i == self.position(name@) && i < self.entries@.len()
                    && self.entries@[i as int].0@ == name@,
                None => !self.has(name@),
            },
    {
        proof {
            use_type_invariant(self);
        }
        let key = name.to_owned();
        let mut i: usize = 0;
        while i < self.entries.len()
            invariant
                i <= self.entries@.len(),
                key@ == name@,
                forall|k: int| 0 <= k < i ==> self.entries@[k].0@ != name@,
                Self::distinct(self.entries@),
            decreases self.entries@.len() - i,
        {
            if self.entries[i].0 == key {
                assert(self.entries@[i as int].0@ == name@);
                let ghost p = self.position(name@);
                assert(0 <= p < self.entries@.len() && self.entries@[p].0@ == name@);
                assert(p == i) by {
                    if p < i {
                        assert(self.entries@[p].0@ != self.entries@[i as int].0@);
                    } else if i < p {
                        assert(self.entries@[i as int].0@ != self.entries@[p].0@);
                    }
                }
                return Some(i);
            }
            i += 1;
        }
        None
    }

    /// Whether an entry called `name` exists.
    pub fn contains(&self, name: &str) -> (r: bool)
        ensures
            r == self.has(name@),
    {
        self.find(name).is_some()
    }

    /// The entry called `name`, if there is one.
    pub fn get(&self, name: &str) -> (r: Option<&T>)
        ensures
            match r {
                Some(v) => self.lookup(name@) == Some(*v),
                None => self.lookup(name@) is None,
            },
    {
        proof {
            use_type_invariant(self);
        }
        match self.find(name) {
            Some(i) => Some(&self.entries[i].1),
            None => None,
        }
    }

    /// Stores `value` under `name` and returns what was stored there before.
    /// Entries under other names are untouched.
    pub fn insert(&mut self, name: &str, value: T) -> (previous: Option<T>)
        ensures
            previous == old(self).lookup(name@),
            final(self).lookup(name@) == Some(value),
            forall|other: Seq<char>|
                other != name@ ==> #[trigger] final(self).lookup(other) == old(self).lookup(other),
    {
        proof {
            use_type_invariant(&*self);
        }
        let ghost before = *self;
        match self.find(name) {
            Some(i) => {
                let mut entries: Vec<(String, T)> = Vec::new();
                core::mem::swap(&mut self.entries, &mut entries);
                entries.push((name.to_owned(), value));
                let previous = entries.swap_remove(i);
                assert(entries@ == before.entries@.update(i as int, (entries@[i as int].0, value)));
                core::mem::swap(&mut self.entries, &mut entries);
                proof {
                    let after = *self;
                    assert(after.entries@[i as int].0@ == name@);
                    Self::position_is(after, name@, i as int);
                    assert forall|other: Seq<char>| other != name@ implies #[trigger] after.lookup(
                        other,
                    ) == before.lookup(other) by {
                        if before.has(other) {
                            let p = before.position(other);
                            assert(after.entries@[p].0@ == other);
                            Self::position_is(after, other, p);
                        } else if after.has(other) {
                            let p = after.position(other);
                            assert(before.entries@[p].0@ == other);
                        }
                    }
                }
                Some(previous.1)
            },
            None => {
                let mut entries: Vec<(String, T)> = Vec::new();
                core::mem::swap(&mut self.entries, &mut entries);
                entries.push((name.to_owned(), value));
                core::mem::swap(&mut self.entries, &mut entries);
                proof {
                    let after = *self;
                    let last = before.entries@.len() as int;
                    assert(after.entries@[last].0@ == name@);
                    Self::position_is(after, name@, last);
                    assert forall|other: Seq<char>| other != name@ implies #[trigger] after.lookup(
                        other,
                    ) == before.lookup(other) by {
                        if before.has(other) {
                            let p = before.position(other);
                            assert(after.entries@[p].0@ == other);
                            Self::position_is(after, other, p);
                        } else if after.has(other) {
                            let p = after.position(other);
                            assert(p < last);
                            assert(before.entries@[p].0@ == other);
                        }
                    }
                }
                None
            },
        }
    }

    /// Removes the entry called `name` and returns its value. Entries under
    /// other names are untouched.
    pub fn remove(&mut self, name: &str) -> (removed: Option<T>)
        ensures
            removed == old(self).lookup(name@),
            final(self).lookup(name@) is None,
            forall|other: Seq<char>|
                other != name@ ==> #[trigger] final(self).lookup(other) == old(self).lookup(other),
    {
        proof {
            use_type_invariant(&*self);
        }
        let ghost before = *self;
        match self.find(name) {
            Some(i) => {
                let mut entries: Vec<(String, T)> = Vec::new();
                core::mem::swap(&mut self.entries, &mut entries);
                let removed = entries.remove(i);
                core::mem::swap(&mut self.entries, &mut entries);
                proof {
                    let after = *self;
                    assert(after.entries@ == before.entries@.remove(i as int));
                    assert(!after.has(name@)) by {
                        if after.has(name@) {
                            let p = after.position(name@);
                            if p < i {
                                assert(before.entries@[p].0@ == name@);
                            } else {
                                assert(before.entries@[p + 1].0@ == name@);
                            }
                        }
                    }
                    assert forall|other: Seq<char>| other != name@ implies #[trigger] after.lookup(
                        other,
                    ) == before.lookup(other) by {
                        if before.has(other) {
                            let p = before.position(other);
                            if p < i {
                                assert(after.entries@[p].0@ == other);
                                Self::position_is(after, other, p);
                            } else {
                                assert(after.entries@[p - 1].0@ == other);
                                Self::position_is(after, other, p - 1);
                            }
                        } else if after.has(other) {
                            let p = after.position(other);
                            if p < i {
                                assert(before.entries@[p].0@ == other);
                            } else {
                                assert(before.entries@[p + 1].0@ == other);
                            }
                        }
                    }
                }
                Some(removed.1)
            },
            None => None,
        }
    }

    /// In a map whose names are distinct, the position of a name is the one
    /// place where it stands.
    proof fn position_is(m: Self, name: Seq<char>, i: int)
        requires
            m.inv(),
            0 <= i < m.entries@.len(),
            m.entries@[i].0@ == name,
        ensures
            m.has(name),
            m.position(name) == i,
    {
        let p = m.position(name);
        if p < i {
            assert(m.entries@[p].0@ != m.entries@[i].0@);
        } else if i < p {
            assert(m.entries@[i].0@ != m.entries@[p].0@);
        }
    }
}

} // verus!
