use std::collections::HashSet;
use vstd::prelude::*;

verus! {

broadcast use vstd::std_specs::hash::group_hash_axioms;

/// The reserved subject identifier that stands for every subject.
pub const WILDCARD_KEY: u64 = 0;

/// A new key was refused because the table holds as many keys as its
/// capacity allows.
#[derive(Clone, Copy, Debug, PartialEq, Eq, Structural)]
pub struct TableFull;

/// A bounded membership set of subject identifiers.
///
/// Its capacity is fixed when it is made; the set never holds more keys than
/// that.
pub struct PolicyTable {
    keys: HashSet<u64>,
    capacity: usize,
}

impl View for PolicyTable {
    type V = Set<u64>;

    closed spec fn view(&self) -> Set<u64> {
        self.keys@
    }
}

impl PolicyTable {
    /// The number of keys the table can hold.
    pub closed spec fn spec_capacity(&self) -> nat {
        self.capacity as nat
    }

    /// The keys are a finite set no larger than the capacity.
    pub closed spec fn wf(&self) -> bool {
        &&& self.keys@.finite()
        &&& self.keys@.len() <= self.capacity
    }

    /// An empty table that can hold up to `capacity` keys.
    pub fn with_capacity(capacity: usize) -> (t: PolicyTable)
        ensures
            t.wf(),
            t@ == Set::<u64>::empty(),
            t.spec_capacity() == capacity,
    {
        PolicyTable { keys: HashSet::new(), capacity }
    }

    /// Whether `key` is in the table.
    pub fn contains(&self, key: u64) -> (r: bool)
        ensures
            r == self@.contains(key),
    {
        self.keys.contains(&key)
    }

    /// The number of keys in the table.
    pub fn len(&self) -> (r: usize)
        requires
            self.wf(),
        ensures
            r == self@.len(),
    {
        self.keys.len()
    }

    /// The number of keys the table can hold.
    pub fn capacity(&self) -> (r: usize)
        ensures
            r == self.spec_capacity(),
    {
        self.capacity
    }

    /// Adds `key` to the table.
    ///
    /// A key already present leaves the table as it is. A new key is refused
    /// with `TableFull` when the table already holds `capacity` keys.
    pub fn insert(&mut self, key: u64) -> (r: Result<(), TableFull>)
        requires
            old(self).wf(),
        ensures
            final(self).wf(),
            final(self).spec_capacity() == old(self).spec_capacity(),
            r is Err <==> (!old(self)@.contains(key) && old(self)@.len() == old(self).spec_capacity()),
            r is Ok ==> final(self)@ == old(self)@.insert(key),
            r is Err ==> final(self)@ == old(self)@,
    {
        if self.keys.contains(&key) {
            assert(self.keys@.insert(key) =~= self.keys@);
            return Ok(());
        }
        if self.keys.len() >= self.capacity {
            return Err(TableFull);
        }
        self.keys.insert(key);
        Ok(())
    }

    /// Takes `key` out of the table, if it is there.
    pub fn remove(&mut self, key: u64)
        requires
            old(self).wf(),
        ensures
            final(self).wf(),
            final(self).spec_capacity() == old(self).spec_capacity(),
            final(self)@ == old(self)@.remove(key),
    {
        self.keys.remove(&key);
    }
}

} // verus!
