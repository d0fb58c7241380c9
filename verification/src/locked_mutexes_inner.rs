use vstd::prelude::*;

use std::collections::HashSet;

use crate::mutex_id::MutexID;

verus! {

/// The set of identifiers stored in the inline slots of a registry:
/// every value that appears in some occupied slot.
pub open spec fn inline_ids_set(slots: Seq<Option<u64>>) -> Set<u64> {
    Set::new(|raw: u64| slots.contains(Some(raw)))
}

/// A per-thread registry of the locks the owning thread currently holds.
///
/// Conceptually this is a set of [`MutexID`]s. Internally it is a hybrid: a
/// small fixed-capacity inline slot array (which avoids heap allocation and
/// hashing for the common case of a thread holding only a few locks at once)
/// plus an overflow hash set used once the inline slots are exhausted.
///
/// The abstraction is [`LockedMutexesInner::ids`], the set of raw identifier
/// values currently registered as held. Every operation states its effect on
/// that set exactly; the inline/overflow split is invisible to callers.
///
/// A registry is owned by one thread and never shared; all operations are
/// invoked by the owning thread only.
#[derive(Debug)]
pub struct LockedMutexesInner<const INLINE: usize> {
    inline_ids: Vec<Option<u64>>,
    id_set: HashSet<u64>,
}

/// The registry shape used with [`ThreadCheckedMutex`]: four inline slots
/// seems a reasonable number to keep inlined. Any capacity preserves
/// correctness; only performance differs.
///
/// [`ThreadCheckedMutex`]: crate::ThreadCheckedMutex
pub type LockedMutexes = LockedMutexesInner<4>;

impl<const INLINE: usize> LockedMutexesInner<INLINE> {
    /// The internal invariant: the inline slot array has exactly the fixed
    /// capacity, an identifier occupies at most one inline slot, and no
    /// identifier is in both an inline slot and the overflow set.
    pub closed spec fn wf(&self) -> bool {
        &&& self.inline_ids@.len() == INLINE
        &&& forall|i: int, j: int|
            0 <= i < j < self.inline_ids@.len() && self.inline_ids@[i] is Some
                ==> self.inline_ids@[i] != self.inline_ids@[j]
        &&& forall|raw: u64|
            self.inline_ids@.contains(Some(raw)) ==> !self.id_set@.contains(raw)
    }

    /// The set of raw identifier values currently registered as held.
    pub closed spec fn ids(&self) -> Set<u64> {
        inline_ids_set(self.inline_ids@) + self.id_set@
    }

    /// Creates a registry with nothing registered.
    pub fn new() -> (registry: Self)
        ensures
            registry.wf(),
            registry.ids() == Set::<u64>::empty(),
    {
        let mut inline_ids: Vec<Option<u64>> = Vec::new();
        while inline_ids.len() < INLINE
            invariant
                inline_ids@.len() <= INLINE,
                forall|i: int| 0 <= i < inline_ids@.len() ==> inline_ids@[i] is None,
            decreases INLINE - inline_ids@.len(),
        {
            inline_ids.push(None);
        }
        let registry = LockedMutexesInner { inline_ids, id_set: HashSet::new() };
        proof {
            assert(registry.ids() =~= Set::<u64>::empty());
        }
        registry
    }

    /// Finds the inline slot holding `raw`, if any.
    fn inline_find(&self, raw: u64) -> (pos: Option<usize>)
        ensures
            match pos {
                Some(i) => i < self.inline_ids@.len() && self.inline_ids@[i as int] == Some(raw),
                None => !self.inline_ids@.contains(Some(raw)),
            },
    {
        let mut i: usize = 0;
        while i < self.inline_ids.len()
            invariant
                i <= self.inline_ids@.len(),
                forall|k: int| 0 <= k < i ==> self.inline_ids@[k] != Some(raw),
            decreases self.inline_ids@.len() - i,
        {
            if let Some(occupant) = self.inline_ids[i] {
                if occupant == raw {
                    return Some(i);
                }
            }
            i += 1;
        }
        None
    }

    /// Finds the first empty inline slot, if any.
    fn inline_find_empty(&self) -> (pos: Option<usize>)
        ensures
            match pos {
                Some(i) => i < self.inline_ids@.len() && self.inline_ids@[i as int] is None,
                None => forall|k: int|
                    0 <= k < self.inline_ids@.len() ==> self.inline_ids@[k] is Some,
            },
    {
        let mut i: usize = 0;
        while i < self.inline_ids.len()
            invariant
                i <= self.inline_ids@.len(),
                forall|k: int| 0 <= k < i ==> self.inline_ids@[k] is Some,
            decreases self.inline_ids@.len() - i,
        {
            if self.inline_ids[i].is_none() {
                return Some(i);
            }
            i += 1;
        }
        None
    }

    /// Registers `mutex_id` as held by the owning thread.
    ///
    /// Returns `true` iff `mutex_id` was not previously registered; in either
    /// case `mutex_id` is registered when this function returns.
    ///
    /// Equivalently, returns `true` iff the registered set changed.
    pub fn register_locked(&mut self, mutex_id: MutexID) -> (newly_locked: bool)
        requires
            old(self).wf(),
        ensures
            final(self).wf(),
            newly_locked == !old(self).ids().contains(mutex_id@),
            final(self).ids() == old(self).ids().insert(mutex_id@),
    {
        let raw = mutex_id.get();

        if self.inline_find(raw).is_some() {
            proof {
                assert(old(self).ids().contains(raw));
                assert(final(self).ids() =~= old(self).ids().insert(raw));
            }
            return false;
        }

        // `raw` is in no inline slot; find room for it.
        if let Some(slot) = self.inline_find_empty() {
            // Only touch the overflow set when necessary.
            if self.id_set.contains(&raw) {
                proof {
                    assert(final(self).ids() =~= old(self).ids().insert(raw));
                }
                false
            } else {
                let ghost old_slots = self.inline_ids@;
                self.inline_ids.set(slot, Some(raw));
                proof {
                    let new_slots = self.inline_ids@;
                    assert forall|x: u64| inline_ids_set(new_slots).contains(x) implies x
                        == raw || inline_ids_set(old_slots).contains(x) by {
                        if x != raw {
                            let i = choose|i: int|
                                0 <= i < new_slots.len() && new_slots[i] == Some(x);
                            assert(old_slots[i] == Some(x));
                            assert(old_slots.contains(Some(x)));
                        }
                    }
                    assert forall|x: u64|
                        inline_ids_set(old_slots).contains(x) implies inline_ids_set(
                        new_slots,
                    ).contains(x) by {
                        let i = choose|i: int| 0 <= i < old_slots.len() && old_slots[i] == Some(x);
                        assert(new_slots[i] == Some(x));
                        assert(new_slots.contains(Some(x)));
                    }
                    assert(new_slots[slot as int] == Some(raw));
                    assert(new_slots.contains(Some(raw)));
                    assert(final(self).ids() =~= old(self).ids().insert(raw));
                    assert(!old(self).ids().contains(raw));
                }
                true
            }
        } else {
            // All inline slots are occupied; fall back to the overflow set.
            let newly_locked = self.id_set.insert(raw);
            proof {
                assert(final(self).ids() =~= old(self).ids().insert(raw));
                assert(newly_locked == !old(self).ids().contains(raw));
            }
            newly_locked
        }
    }

    /// Removes `mutex_id` from the set registered as held.
    ///
    /// Returns `true` iff `mutex_id` was registered; in either case
    /// `mutex_id` is not registered when this function returns.
    ///
    /// Equivalently, returns `true` iff the registered set changed.
    pub fn register_unlocked(&mut self, mutex_id: MutexID) -> (was_locked: bool)
        requires
            old(self).wf(),
        ensures
            final(self).wf(),
            was_locked == old(self).ids().contains(mutex_id@),
            final(self).ids() == old(self).ids().remove(mutex_id@),
    {
        let raw = mutex_id.get();

        if let Some(slot) = self.inline_find(raw) {
            let ghost old_slots = self.inline_ids@;
            self.inline_ids.set(slot, None);
            proof {
                let new_slots = self.inline_ids@;
                assert forall|x: u64| inline_ids_set(new_slots).contains(x) implies inline_ids_set(
                    old_slots,
                ).contains(x) && x != raw by {
                    let i = choose|i: int| 0 <= i < new_slots.len() && new_slots[i] == Some(x);
                    assert(old_slots[i] == Some(x));
                    assert(old_slots.contains(Some(x)));
                    // The slot being cleared held the only occurrence of `raw`.
                    assert(i != slot as int);
                    if x == raw {
                        assert(old_slots[slot as int] == Some(raw));
                        assert(false);
                    }
                }
                assert forall|x: u64|
                    inline_ids_set(old_slots).contains(x) && x != raw implies inline_ids_set(
                    new_slots,
                ).contains(x) by {
                    let i = choose|i: int| 0 <= i < old_slots.len() && old_slots[i] == Some(x);
                    assert(i != slot as int);
                    assert(new_slots[i] == Some(x));
                    assert(new_slots.contains(Some(x)));
                }
                assert(old_slots.contains(Some(raw)));
                assert(final(self).ids() =~= old(self).ids().remove(raw));
            }
            true
        } else {
            let was_locked = self.id_set.remove(&raw);
            proof {
                assert(final(self).ids() =~= old(self).ids().remove(raw));
                assert(was_locked == old(self).ids().contains(raw));
            }
            was_locked
        }
    }

    /// Whether `mutex_id` is registered as held by the owning thread.
    /// A pure membership query: the registered set is not changed.
    pub fn locked_by_current_thread(&self, mutex_id: MutexID) -> (locked: bool)
        requires
            self.wf(),
        ensures
            locked == self.ids().contains(mutex_id@),
    {
        let raw = mutex_id.get();
        if self.inline_find(raw).is_some() {
            true
        } else {
            self.id_set.contains(&raw)
        }
    }
}

/// The registered set after registering each identifier of `ids` in order,
/// starting from `held`: the model of a thread locking a sequence of
/// mutexes.
pub open spec fn register_all(held: Set<u64>, ids: Seq<u64>) -> Set<u64>
    decreases ids.len(),
{
    if ids.len() == 0 {
        held
    } else {
        register_all(held.insert(ids[0]), ids.drop_first())
    }
}

/// The registered set after unregistering each identifier of `ids` in order,
/// starting from `held`: the model of a thread unlocking a sequence of
/// mutexes.
pub open spec fn unregister_all(held: Set<u64>, ids: Seq<u64>) -> Set<u64>
    decreases ids.len(),
{
    if ids.len() == 0 {
        held
    } else {
        unregister_all(held.remove(ids[0]), ids.drop_first())
    }
}

/// Registering a sequence of identifiers adds exactly that sequence's
/// identifiers to the registered set, whatever the order.
pub proof fn lemma_register_all_adds(held: Set<u64>, ids: Seq<u64>)
    ensures
        register_all(held, ids) == held + ids.to_set(),
    decreases ids.len(),
{
    if ids.len() == 0 {
        assert(register_all(held, ids) =~= held + ids.to_set());
    } else {
        lemma_register_all_adds(held.insert(ids[0]), ids.drop_first());
        assert forall|x: u64| ids.to_set().contains(x) implies x == ids[0]
            || ids.drop_first().to_set().contains(x) by {
            let i = choose|i: int| 0 <= i < ids.len() && ids[i] == x;
            if i != 0 {
                assert(ids.drop_first()[i - 1] == x);
                assert(ids.drop_first().contains(x));
            }
        }
        assert forall|x: u64| ids.drop_first().to_set().contains(x) implies ids.to_set().contains(
            x,
        ) by {
            let i = choose|i: int| 0 <= i < ids.drop_first().len() && ids.drop_first()[i] == x;
            assert(ids[i + 1] == x);
        }
        assert(ids.contains(ids[0]));
        assert(register_all(held, ids) =~= held + ids.to_set());
    }
}

/// Unregistering a sequence of identifiers removes exactly that sequence's
/// identifiers from the registered set, whatever the order.
pub proof fn lemma_unregister_all_removes(held: Set<u64>, ids: Seq<u64>)
    ensures
        unregister_all(held, ids) == held.difference(ids.to_set()),
    decreases ids.len(),
{
    if ids.len() == 0 {
        assert(unregister_all(held, ids) =~= held.difference(ids.to_set()));
    } else {
        lemma_unregister_all_removes(held.remove(ids[0]), ids.drop_first());
        assert forall|x: u64| ids.to_set().contains(x) implies x == ids[0]
            || ids.drop_first().to_set().contains(x) by {
            let i = choose|i: int| 0 <= i < ids.len() && ids[i] == x;
            if i != 0 {
                assert(ids.drop_first()[i - 1] == x);
                assert(ids.drop_first().contains(x));
            }
        }
        assert forall|x: u64| ids.drop_first().to_set().contains(x) implies ids.to_set().contains(
            x,
        ) by {
            let i = choose|i: int| 0 <= i < ids.drop_first().len() && ids.drop_first()[i] == x;
            assert(ids[i + 1] == x);
        }
        assert(ids.contains(ids[0]));
        assert(unregister_all(held, ids) =~= held.difference(ids.to_set()));
    }
}

/// Registering any number of distinct identifiers with one thread and then
/// unregistering them again, in any order — first-in-first-out,
/// last-in-first-out, or any other permutation — leaves the registry
/// reporting none of them held. `ids` is the order the locks were taken in
/// and `order` the order they were released in; the two may list the same
/// identifiers in any orders.
pub proof fn lemma_unlock_in_any_order_clears(ids: Seq<u64>, order: Seq<u64>)
    requires
        order.to_set() == ids.to_set(),
    ensures
        unregister_all(register_all(Set::<u64>::empty(), ids), order) == Set::<u64>::empty(),
{
    lemma_register_all_adds(Set::<u64>::empty(), ids);
    lemma_unregister_all_removes(register_all(Set::<u64>::empty(), ids), order);
    assert(unregister_all(register_all(Set::<u64>::empty(), ids), order) =~= Set::<
        u64,
    >::empty());
}

/// A lock's identifier is registered strictly between a successful lock
/// (which registers it into a registry not yet holding it) and the matching
/// unlock (which removes it), and the unlock restores the registered set
/// exactly as it was before the lock: holding is bracketed by the
/// lock/unlock pair.
pub proof fn lemma_holding_is_bracketed(held: Set<u64>, id: u64)
    requires
        !held.contains(id),
    ensures
        held.insert(id).contains(id),
        !held.insert(id).remove(id).contains(id),
        held.insert(id).remove(id) == held,
{
    assert(held.insert(id).remove(id) =~= held);
}

impl<const INLINE: usize> Default for LockedMutexesInner<INLINE> {
    /// Same as [`LockedMutexesInner::new`]: a registry with nothing
    /// registered.
    fn default() -> (registry: Self)
        ensures
            registry.wf(),
            registry.ids() == Set::<u64>::empty(),
    {
        Self::new()
    }
}

} // verus!
