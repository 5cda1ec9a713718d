//! Host-side bookkeeping for GC roots and private-data associations.
//!
//! A rooted reference must stay registered with the collector for an
//! externally determined duration, and root registration and deregistration
//! must be paired; the registry records each registration so a deregistration
//! without a matching registration is reported as a failure rather than
//! passed through silently. Private data is an opaque host value attached to
//! a context or object the engine never interprets; the table keys it by
//! handle so the host keeps type safety and can look the association up
//! explicitly.

use vstd::prelude::*;

use crate::gateway::Error;

verus! {

/// The set of currently registered GC roots, one record per registration.
pub struct RootRegistry {
    roots: Vec<u64>,
}

impl View for RootRegistry {
    type V = Seq<u64>;

    closed spec fn view(&self) -> Seq<u64> {
        self.roots@
    }
}

impl RootRegistry {
    /// Whether at least one registration of `handle` is outstanding.
    pub open spec fn rooted(&self, handle: u64) -> bool {
        self@.contains(handle)
    }

    /// A fresh registry with no outstanding roots.
    pub fn new() -> (registry: RootRegistry)
        ensures
            registry@ == Seq::<u64>::empty(),
    {
        RootRegistry { roots: Vec::new() }
    }

    /// How many registrations are outstanding.
    pub fn root_count(&self) -> (count: usize)
        ensures
            count == self@.len(),
    {
        self.roots.len()
    }

    /// Whether `handle` is currently rooted.
    pub fn contains_root(&self, handle: u64) -> (found: bool)
        ensures
            found == self.rooted(handle),
    {
        let mut i: usize = 0;
        while i < self.roots.len()
            invariant
                i <= self.roots@.len(),
                forall|j: int| 0 <= j < i ==> self.roots@[j] != handle,
            decreases self.roots@.len() - i,
        {
            if self.roots[i] == handle {
                return true;
            }
            i += 1;
        }
        false
    }

    /// Registers `handle` as a GC root. Each call records one registration,
    /// to be released by one matching `remove_root`.
    pub fn add_root(&mut self, handle: u64) -> (r: Result<(), Error>)
        ensures
            r == Ok::<(), Error>(()),
            final(self)@ == old(self)@.push(handle),
            final(self).rooted(handle),
    {
        self.roots.push(handle);
        proof {
            assert(self@[self@.len() - 1] == handle);
        }
        Ok(())
    }

    /// Releases one registration of `handle`. With no outstanding
    /// registration to release, the pairing is broken and the call reports
    /// `OperationFailed` without touching the registry.
    pub fn remove_root(&mut self, handle: u64) -> (r: Result<(), Error>)
        ensures
            old(self).rooted(handle) ==> r == Ok::<(), Error>(()) && (exists|i: int|
                0 <= i < old(self)@.len() && old(self)@[i] == handle && final(self)@
                    == old(self)@.remove(i)),
            !old(self).rooted(handle) ==> r == Err::<(), Error>(Error::OperationFailed)
                && final(self)@ == old(self)@,
    {
        let mut i: usize = 0;
        while i < self.roots.len()
            invariant
                i <= self.roots@.len(),
                forall|j: int| 0 <= j < i ==> self.roots@[j] != handle,
                self == old(self),
            decreases self.roots@.len() - i,
        {
            if self.roots[i] == handle {
                self.roots.remove(i);
                return Ok(());
            }
            i += 1;
        }
        Err(Error::OperationFailed)
    }
}

/// Pairing law: a registration is always releasable. `add_root` leaves a
/// registry whose view is the old view with the handle pushed, and any such
/// view contains the handle, which is exactly the condition under which
/// `remove_root` succeeds; a handle never rooted fails that condition, so
/// its release reports `OperationFailed`.
pub proof fn lemma_root_pairing(registry: Seq<u64>, handle: u64)
    ensures
        registry.push(handle).contains(handle),
{
    assert(registry.push(handle)[registry.len() as int] == handle);
}

/// One private-data association: an opaque host value keyed by the handle of
/// the context or object it belongs to.
#[derive(Clone, Copy, PartialEq, Eq, Structural, Debug)]
pub struct PrivateEntry {
    pub key: u64,
    pub value: usize,
}

/// The private-data associations as a whole: later entries for a key
/// supersede earlier ones.
pub open spec fn associations_of(entries: Seq<PrivateEntry>) -> Map<u64, usize>
    decreases entries.len(),
{
    if entries.len() == 0 {
        Map::empty()
    } else {
        associations_of(entries.drop_last()).insert(entries.last().key, entries.last().value)
    }
}

/// Private-data storage for contexts or objects: each handle maps to at most
/// one opaque host value, the most recently set one.
pub struct PrivateTable {
    entries: Vec<PrivateEntry>,
}

impl View for PrivateTable {
    type V = Map<u64, usize>;

    closed spec fn view(&self) -> Map<u64, usize> {
        associations_of(self.entries@)
    }
}

impl PrivateTable {
    /// A fresh table with no associations.
    pub fn new() -> (table: PrivateTable)
        ensures
            table@ == Map::<u64, usize>::empty(),
    {
        PrivateTable { entries: Vec::new() }
    }

    /// Associates `value` with `key`, superseding any earlier association.
    pub fn set_private(&mut self, key: u64, value: usize)
        ensures
            final(self)@ == old(self)@.insert(key, value),
    {
        self.entries.push(PrivateEntry { key, value });
        proof {
            assert(self.entries@.drop_last() =~= old(self).entries@);
        }
    }

    /// The value associated with `key`, or `None` where no association was
    /// ever set.
    pub fn get_private(&self, key: u64) -> (r: Option<usize>)
        ensures
            self@.dom().contains(key) ==> r == Some(self@[key]),
            !self@.dom().contains(key) ==> r is None,
    {
        let mut found: Option<usize> = None;
        let mut i: usize = 0;
        while i < self.entries.len()
            invariant
                i <= self.entries@.len(),
                associations_of(self.entries@.take(i as int)).dom().contains(key) <==> found is Some,
                found matches Some(v) ==> associations_of(self.entries@.take(i as int))[key] == v,
            decreases self.entries@.len() - i,
        {
            let entry = self.entries[i];
            proof {
                assert(self.entries@.take(i + 1).drop_last() =~= self.entries@.take(i as int));
                assert(self.entries@.take(i + 1).last() == self.entries@[i as int]);
            }
            if entry.key == key {
                found = Some(entry.value);
            }
            i += 1;
        }
        proof {
            assert(self.entries@.take(self.entries@.len() as int) =~= self.entries@);
        }
        found
    }
}

} // verus!
