use vstd::prelude::*;

verus! {

/// A unique `MutexID` is assigned to each [`ThreadCheckedMutex`] so that each
/// thread can track which mutexes it has acquired.
///
/// A `MutexID` is an opaque, non-zero 64-bit value. Every identifier issued by
/// one [`MutexIdAllocator`] is distinct from every other identifier issued by
/// that allocator, which is what makes per-thread lock tracking sound.
///
/// [`ThreadCheckedMutex`]: crate::ThreadCheckedMutex
#[derive(Debug, Clone, Copy, PartialEq, Eq, Hash, Structural)]
pub struct MutexID {
    id: u64,
}

impl View for MutexID {
    type V = u64;

    closed spec fn view(&self) -> u64 {
        self.id
    }
}

impl MutexID {
    /// A `MutexID` issued by an allocator is never zero.
    pub open spec fn wf(&self) -> bool {
        1 <= self@
    }

    /// The raw value of this identifier.
    pub fn get(&self) -> (raw: u64)
        ensures
            raw == self@,
    {
        self.id
    }
}

/// The number of distinct identifiers one allocator may issue: 2^63.
///
/// Exceeding this bound is a programming-scale error; an allocator refuses to
/// wrap around into reused identifiers, because a reused identifier would
/// corrupt the per-thread registry's correctness invariant.
pub const MAX_MUTEXES_PER_PROCESS: u64 = 0x8000_0000_0000_0000;

/// Issues process-unique, non-zero [`MutexID`]s from a monotonically
/// increasing counter.
///
/// The allocator is plain state: the caller owns one instance for the whole
/// process (for instance behind an atomic or a lock) and threads it through
/// [`ThreadCheckedMutex::new`]. Identifiers start at 1 and increase by 1 on
/// each issue, so two identifiers issued by the same allocator are never
/// equal.
///
/// [`ThreadCheckedMutex::new`]: crate::ThreadCheckedMutex::new
#[derive(Debug)]
pub struct MutexIdAllocator {
    issued: u64,
}

impl MutexIdAllocator {
    /// How many identifiers this allocator has issued so far.
    pub closed spec fn spec_issued(&self) -> u64 {
        self.issued
    }

    /// Creates an allocator that has issued no identifiers yet.
    pub fn new() -> (allocator: Self)
        ensures
            allocator.spec_issued() == 0,
    {
        MutexIdAllocator { issued: 0 }
    }

    /// How many identifiers this allocator has issued so far.
    pub fn issued(&self) -> (count: u64)
        ensures
            count == self.spec_issued(),
    {
        self.issued
    }

    /// Returns an identifier distinct from every previous and every future
    /// identifier of this allocator: the counter value after this issue.
    ///
    /// The caller must know that the identifier space is not exhausted; use
    /// [`MutexIdAllocator::try_next_id`] to test for exhaustion instead.
    pub fn next_id(&mut self) -> (id: MutexID)
        requires
            old(self).spec_issued() < MAX_MUTEXES_PER_PROCESS,
        ensures
            final(self).spec_issued() == old(self).spec_issued() + 1,
            id@ == old(self).spec_issued() + 1,
            id.wf(),
    {
        let issued = self.issued + 1;
        self.issued = issued;
        MutexID { id: issued }
    }

    /// Two identifiers issued by one allocator are never equal: every issue
    /// returns the successor of the strictly increasing counter, so the
    /// identifiers issued at two different counts differ. Together with
    /// [`MutexIdAllocator::next_id`]'s contract this is what makes a
    /// [`MutexID`] a sound key for the per-thread registries.
    pub proof fn lemma_issued_ids_distinct(count_a: u64, count_b: u64)
        requires
            count_a != count_b,
            count_a < MAX_MUTEXES_PER_PROCESS,
            count_b < MAX_MUTEXES_PER_PROCESS,
        ensures
            count_a + 1 != count_b + 1,
    {
    }

    /// Returns a fresh identifier, or `None` when 2^63 identifiers have
    /// already been issued. Exhaustion leaves the allocator unchanged; the
    /// caller should treat it as fatal rather than retry.
    pub fn try_next_id(&mut self) -> (id: Option<MutexID>)
        ensures
            old(self).spec_issued() < MAX_MUTEXES_PER_PROCESS ==> {
                &&& id matches Some(fresh)
                &&& fresh@ == old(self).spec_issued() + 1
                &&& fresh.wf()
                &&& final(self).spec_issued() == old(self).spec_issued() + 1
            },
            old(self).spec_issued() >= MAX_MUTEXES_PER_PROCESS ==> {
                &&& id is None
                &&& final(self).spec_issued() == old(self).spec_issued()
            },
    {
        if self.issued < MAX_MUTEXES_PER_PROCESS {
            Some(self.next_id())
        } else {
            None
        }
    }
}

} // verus!
