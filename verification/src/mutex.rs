use vstd::prelude::*;

use std::sync::{Mutex, MutexGuard};

use crate::error::{
    AccessError, AccessResult, LockError, LockResult, PoisonError, TryLockError, TryLockResult,
};
use crate::locked_mutexes_inner::LockedMutexes;
use crate::mutex_id::{MutexID, MutexIdAllocator, MAX_MUTEXES_PER_PROCESS};

verus! {

/// The underlying platform lock. Its contents are shared mutable state
/// across threads, so nothing is known here about the value it protects;
/// every operation on it goes through a trusted wrapper below.
#[verifier::external_type_specification]
#[verifier::external_body]
#[verifier::reject_recursive_types(T)]
pub struct ExMutex<T: ?Sized>(Mutex<T>);

/// The underlying platform lock's guard, wrapped by
/// [`ThreadCheckedMutexGuard`].
#[verifier::external_type_specification]
#[verifier::external_body]
#[verifier::reject_recursive_types(T)]
pub struct ExMutexGuard<'a, T: ?Sized + 'a>(MutexGuard<'a, T>);

/// Relies on `std::sync::Mutex::new`: creates an unlocked, unpoisoned mutex
/// protecting `t`.
#[verifier::external_body]
fn raw_new<T>(t: T) -> Mutex<T> {
    Mutex::new(t)
}

/// Relies on `std::sync::Mutex::lock`: blocks until the lock is acquired,
/// then returns its guard; `Err` carries the guard of a lock that was
/// acquired but is poisoned. Whether poison is reported depends on what
/// other threads did, so nothing relates the two outcomes.
///
/// `std` leaves re-entry by the holding thread undefined between deadlock
/// and panic; [`ThreadCheckedMutex::lock`] only reaches this call after the
/// registry has ruled that out for callers that follow the one-registry-
/// per-thread discipline.
#[verifier::external_body]
fn raw_lock<'a, T>(mutex: &'a Mutex<T>) -> Result<MutexGuard<'a, T>, MutexGuard<'a, T>> {
    match mutex.lock() {
        Ok(guard) => Ok(guard),
        Err(poison) => Err(poison.into_inner()),
    }
}

/// How one non-blocking acquisition attempt of the underlying lock ended.
#[verifier::reject_recursive_types(T)]
enum RawTryLock<'a, T> {
    /// The lock was acquired cleanly.
    Acquired(MutexGuard<'a, T>),
    /// The lock was acquired, but it is poisoned.
    AcquiredPoisoned(MutexGuard<'a, T>),
    /// Some thread holds the lock, so acquiring it would block.
    WouldBlock,
}

/// Relies on `std::sync::Mutex::try_lock`: returns the guard when the lock
/// could be acquired without blocking (separately for a poisoned lock), and
/// reports `WouldBlock` otherwise. Which outcome occurs depends on what
/// other threads hold, so nothing relates the outcomes.
#[verifier::external_body]
fn raw_try_lock<'a, T>(mutex: &'a Mutex<T>) -> RawTryLock<'a, T> {
    match mutex.try_lock() {
        Ok(guard) => RawTryLock::Acquired(guard),
        Err(std::sync::TryLockError::Poisoned(poison)) => {
            RawTryLock::AcquiredPoisoned(poison.into_inner())
        },
        Err(std::sync::TryLockError::WouldBlock) => RawTryLock::WouldBlock,
    }
}

/// Relies on `std::sync::Mutex::is_poisoned`: whether some holder panicked
/// while holding the lock, as of some moment during the call. Other threads
/// may poison the lock or clear its poison at any time.
#[verifier::external_body]
fn raw_is_poisoned<T>(mutex: &Mutex<T>) -> bool {
    mutex.is_poisoned()
}

/// Relies on `std::sync::Mutex::clear_poison`: removes the poison flag, so
/// later acquisitions succeed cleanly unless some holder panics again.
#[verifier::external_body]
fn raw_clear_poison<T>(mutex: &Mutex<T>) {
    mutex.clear_poison();
}

/// Relies on `std::sync::Mutex::into_inner`: consumes the lock and returns
/// the protected value; `Err` carries the value out of a poisoned lock.
#[verifier::external_body]
fn raw_into_inner<T>(mutex: Mutex<T>) -> Result<T, T> {
    match mutex.into_inner() {
        Ok(t) => Ok(t),
        Err(poison) => Err(poison.into_inner()),
    }
}

/// Relies on `std::sync::Mutex::get_mut`: borrows the protected value
/// without locking, which is sound because the exclusive borrow of the mutex
/// proves no other access is possible. The flag reports whether the lock is
/// poisoned.
#[verifier::external_body]
fn raw_get_mut<'a, T>(mutex: &'a mut Mutex<T>) -> (&'a mut T, bool) {
    match mutex.get_mut() {
        Ok(t) => (t, false),
        Err(poison) => (poison.into_inner(), true),
    }
}

/// Relies on the `Deref` impl of `std::sync::MutexGuard`: a reference to the
/// value the guarded lock protects.
#[verifier::external_body]
fn raw_guard_ref<'a, 'b, T>(guard: &'b MutexGuard<'a, T>) -> &'b T {
    &**guard
}

/// Relies on the `DerefMut` impl of `std::sync::MutexGuard`: replaces the
/// value the guarded lock protects.
#[verifier::external_body]
fn raw_guard_set<'a, T>(guard: &mut MutexGuard<'a, T>, value: T) {
    **guard = value;
}

/// Relies on the `DerefMut` impl of `std::sync::MutexGuard`: a mutable
/// reference to the value the guarded lock protects.
#[verifier::external_body]
fn raw_guard_mut<'a, 'b, T>(guard: &'b mut MutexGuard<'a, T>) -> &'b mut T {
    &mut **guard
}

/// A variant of [`std::sync::Mutex`] which gracefully returns an error when
/// a thread attempts to acquire a `ThreadCheckedMutex` that it already
/// holds.
///
/// In such a situation, `Mutex::lock` is guaranteed to either deadlock or
/// panic, while `Mutex::try_lock` checks whether *any* thread holds the lock
/// and cannot distinguish whether the current thread holds it. As such,
/// attempting to lock the same `Mutex` twice on a thread is potentially a
/// fatal error; `ThreadCheckedMutex` allows for recovery.
///
/// Each mutex owns a [`MutexID`], fixed at construction. Acquisitions
/// consult and update the calling thread's [`LockedMutexes`] registry, which
/// the caller passes in: each thread must keep one registry of its own
/// (typically in thread-local storage) and hand it to every operation it
/// performs, so that "held by the current thread" means "registered in the
/// registry passed here".
#[derive(Debug)]
#[verifier::reject_recursive_types(T)]
pub struct ThreadCheckedMutex<T> {
    mutex_id: MutexID,
    mutex: Mutex<T>,
}

impl<T> ThreadCheckedMutex<T> {
    /// The identity of this mutex.
    pub closed spec fn id(&self) -> MutexID {
        self.mutex_id
    }

    /// Creates a new mutex in an unlocked state, with a fresh identity drawn
    /// from `ids`.
    pub fn new(t: T, ids: &mut MutexIdAllocator) -> (mutex: Self)
        requires
            old(ids).spec_issued() < MAX_MUTEXES_PER_PROCESS,
        ensures
            final(ids).spec_issued() == old(ids).spec_issued() + 1,
            mutex.id()@ == old(ids).spec_issued() + 1,
            mutex.id().wf(),
    {
        ThreadCheckedMutex { mutex_id: ids.next_id(), mutex: raw_new(t) }
    }

    /// Helper for wrapping the underlying lock's guard.
    fn new_guard<'a>(&self, guard: MutexGuard<'a, T>) -> (wrapped: ThreadCheckedMutexGuard<'a, T>)
        ensures
            wrapped.id() == self.id(),
    {
        ThreadCheckedMutexGuard { mutex_id: self.mutex_id, guard }
    }

    /// Attempts to acquire this mutex, blocking the current thread while the
    /// mutex is locked in other threads.
    ///
    /// If the calling thread already holds this mutex (its identity is in
    /// `registry`), the call fails immediately with
    /// [`LockError::LockedByCurrentThread`], without blocking and without
    /// touching the registry: blocking here could only deadlock.
    ///
    /// Otherwise the mutex is acquired and its identity registered. If a
    /// previous holder panicked while holding the mutex, the guard is still
    /// returned, wrapped in [`LockError::Poisoned`]; poison never prevents
    /// acquisition, it only flags risk.
    pub fn lock<'a>(&'a self, registry: &mut LockedMutexes) -> (r: LockResult<
        ThreadCheckedMutexGuard<'a, T>,
    >)
        requires
            old(registry).wf(),
        ensures
            final(registry).wf(),
            old(registry).ids().contains(self.id()@) ==> {
                &&& r matches Err(e) && e is LockedByCurrentThread
                &&& final(registry).ids() == old(registry).ids()
            },
            !old(registry).ids().contains(self.id()@) ==> {
                &&& final(registry).ids() == old(registry).ids().insert(self.id()@)
                &&& match r {
                    Ok(guard) => guard.id() == self.id(),
                    Err(LockError::Poisoned(p)) => p.spec_inner().id() == self.id(),
                    Err(LockError::LockedByCurrentThread) => false,
                }
            },
    {
        if registry.register_locked(self.mutex_id) {
            match raw_lock(&self.mutex) {
                Ok(guard) => Ok(self.new_guard(guard)),
                Err(poisoned_guard) => Err(
                    LockError::Poisoned(PoisonError::new(self.new_guard(poisoned_guard))),
                ),
            }
        } else {
            Err(LockError::LockedByCurrentThread)
        }
    }

    /// Attempts to acquire this mutex without blocking.
    ///
    /// If the calling thread already holds this mutex, the call fails with
    /// [`TryLockError::LockedByCurrentThread`]. This is checked before even
    /// attempting the underlying non-blocking acquisition, since the
    /// underlying primitive cannot distinguish "locked by me" from "locked
    /// by someone else". If a different thread holds the mutex, the call
    /// fails with [`TryLockError::WouldBlock`] and the registry is left
    /// unchanged.
    ///
    /// On success the identity is registered and a guard returned, wrapped
    /// in [`TryLockError::Poisoned`] if a previous holder panicked while
    /// holding the mutex.
    pub fn try_lock<'a>(&'a self, registry: &mut LockedMutexes) -> (r: TryLockResult<
        ThreadCheckedMutexGuard<'a, T>,
    >)
        requires
            old(registry).wf(),
        ensures
            final(registry).wf(),
            old(registry).ids().contains(self.id()@) ==> {
                &&& r matches Err(e) && e is LockedByCurrentThread
                &&& final(registry).ids() == old(registry).ids()
            },
            !old(registry).ids().contains(self.id()@) ==> match r {
                Ok(guard) => {
                    &&& guard.id() == self.id()
                    &&& final(registry).ids() == old(registry).ids().insert(self.id()@)
                },
                Err(TryLockError::Poisoned(p)) => {
                    &&& p.spec_inner().id() == self.id()
                    &&& final(registry).ids() == old(registry).ids().insert(self.id()@)
                },
                Err(TryLockError::WouldBlock) => final(registry).ids() == old(registry).ids(),
                Err(TryLockError::LockedByCurrentThread) => false,
            },
    {
        if registry.locked_by_current_thread(self.mutex_id) {
            return Err(TryLockError::LockedByCurrentThread);
        }
        match raw_try_lock(&self.mutex) {
            RawTryLock::Acquired(guard) => {
                let newly_locked = registry.register_locked(self.mutex_id);
                assert(newly_locked);
                Ok(self.new_guard(guard))
            },
            RawTryLock::AcquiredPoisoned(guard) => {
                let newly_locked = registry.register_locked(self.mutex_id);
                assert(newly_locked);
                Err(TryLockError::Poisoned(PoisonError::new(self.new_guard(guard))))
            },
            RawTryLock::WouldBlock => Err(TryLockError::WouldBlock),
        }
    }

    /// Whether this mutex is currently held by the calling thread, that is,
    /// registered in the calling thread's registry. A pure query: the
    /// registry is not changed.
    pub fn locked_by_current_thread(&self, registry: &LockedMutexes) -> (locked: bool)
        requires
            registry.wf(),
        ensures
            locked == registry.ids().contains(self.id()@),
    {
        registry.locked_by_current_thread(self.mutex_id)
    }

    /// Whether this mutex is currently poisoned.
    ///
    /// If another thread is active, the mutex could become poisoned or have
    /// its poison cleared at any time; the return value should generally not
    /// be depended on for program correctness.
    pub fn is_poisoned(&self) -> bool {
        raw_is_poisoned(&self.mutex)
    }

    /// Clears any poison from this mutex.
    ///
    /// When a guard is dropped in a thread which is panicking, its mutex
    /// becomes poisoned, and remains poisoned until this function is called
    /// (by any thread).
    pub fn clear_poison(&self) {
        raw_clear_poison(&self.mutex);
    }

    /// Consumes this mutex and returns the protected value, without going
    /// through the registry: taking the mutex by value already proves no
    /// guard for it exists. If a previous holder panicked while holding the
    /// mutex, the value is still returned, wrapped in a poison error.
    ///
    /// The value handed over is whatever the final holder left; that is
    /// shared mutable state across threads, so nothing more can be said of
    /// it here.
    pub fn into_inner(self) -> AccessResult<T> {
        match raw_into_inner(self.mutex) {
            Ok(t) => Ok(t),
            Err(t) => Err(AccessError { poison: PoisonError::new(t) }),
        }
    }

    /// Borrows the protected value without locking and without going through
    /// the registry: the exclusive borrow of the mutex already proves no
    /// concurrent access is possible. The flag reports whether the mutex is
    /// poisoned; the borrow is handed out either way. (An `AccessResult`
    /// carrying the borrow itself cannot be expressed here, so poison is
    /// reported beside the borrow rather than around it.)
    pub fn get_mut(&mut self) -> (&mut T, bool) {
        raw_get_mut(&mut self.mutex)
    }
}

/// A RAII scoped lock for a [`ThreadCheckedMutex`], analogous to
/// `MutexGuard` for `Mutex`.
///
/// A guard is created only by [`ThreadCheckedMutex::lock`] and
/// [`ThreadCheckedMutex::try_lock`]; at most one guard exists for a given
/// mutex at any instant, across all threads. The thread that acquired the
/// guard releases it with [`ThreadCheckedMutexGuard::unlock`], handing back
/// the same registry that the acquisition registered the mutex in.
#[derive(Debug)]
#[verifier::reject_recursive_types(T)]
pub struct ThreadCheckedMutexGuard<'a, T> {
    mutex_id: MutexID,
    guard: MutexGuard<'a, T>,
}

impl<'a, T> ThreadCheckedMutexGuard<'a, T> {
    /// The identity of the mutex this guard locks.
    pub closed spec fn id(&self) -> MutexID {
        self.mutex_id
    }

    /// A reference to the value the locked mutex protects.
    pub fn get(&self) -> &T {
        raw_guard_ref(&self.guard)
    }

    /// Replaces the value the locked mutex protects.
    pub fn set(&mut self, value: T) {
        raw_guard_set(&mut self.guard, value);
    }

    /// A mutable reference to the value the locked mutex protects.
    pub fn get_mut(&mut self) -> &mut T {
        raw_guard_mut(&mut self.guard)
    }

    /// Releases the lock: removes the mutex's identity from the calling
    /// thread's registry, then drops the underlying guard, unlocking the
    /// mutex.
    ///
    /// Returns whether the identity was registered. It always is when the
    /// registry is the one the guard was acquired with; `false` would mean
    /// the guard crossed to another thread's registry, which callers should
    /// treat as an internal-consistency bug.
    pub fn unlock(self, registry: &mut LockedMutexes) -> (was_locked: bool)
        requires
            old(registry).wf(),
        ensures
            final(registry).wf(),
            was_locked == old(registry).ids().contains(self.id()@),
            final(registry).ids() == old(registry).ids().remove(self.id()@),
    {
        registry.register_unlocked(self.mutex_id)
    }
}

} // verus!
