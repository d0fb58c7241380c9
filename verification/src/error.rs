use vstd::prelude::*;

use std::convert::Infallible;

verus! {

/// Carried by an error when the lock was acquired (or its data reached), but
/// a previous holder panicked while holding the lock.
///
/// The wrapped value is still handed over: poison is a speed bump for
/// accessing data whose logical invariants are potentially broken, never a
/// loss of the data itself.
#[derive(Debug)]
pub struct PoisonError<T> {
    inner: T,
}

impl<T> PoisonError<T> {
    /// The value carried by this poison error.
    pub closed spec fn spec_inner(&self) -> T {
        self.inner
    }

    /// Wraps `inner` in a poison error.
    pub fn new(inner: T) -> (e: Self)
        ensures
            e.spec_inner() == inner,
    {
        PoisonError { inner }
    }

    /// Consumes this error, returning the wrapped value.
    pub fn into_inner(self) -> (inner: T)
        ensures
            inner == self.spec_inner(),
    {
        self.inner
    }

    /// A reference to the wrapped value.
    pub fn get_ref(&self) -> (inner: &T)
        ensures
            *inner == self.spec_inner(),
    {
        &self.inner
    }
}

/// Extension trait for [`Result`]s which adds the ability to more
/// conveniently handle the poison errors returned by this crate's locks.
///
/// When another thread panics while it holds a poisonable lock, the lock
/// becomes poisoned (which may be manually cleared). Attempts to acquire a
/// poisoned lock, or to otherwise access the data it protects, return poison
/// errors. As a poison error is only returned when some thread has already
/// panicked, it is common to unconditionally panic in the current thread as
/// well when poison is encountered, or to simply ignore the circumstance.
pub trait HandlePoisonResult: Sized {
    /// A variation of the `Self` result type which cannot possibly be a
    /// poison error.
    type PoisonlessResult;

    /// Whether this result is an error caused by poison.
    spec fn spec_is_poison(&self) -> bool;

    /// This result with any poison error converted into a success carrying
    /// the wrapped value, and any other outcome unchanged.
    spec fn spec_handle_poison(self) -> Self::PoisonlessResult;

    /// Silently converts any poison error into a successful result, and
    /// otherwise returns the result unchanged.
    fn ignore_poison(self) -> (r: Self::PoisonlessResult)
        ensures
            r == self.spec_handle_poison(),
    ;

    /// Returns the result unchanged, modulo the type of the error. The
    /// caller must know that the result is not a poison error; on a poison
    /// error this operation would have no value to return.
    fn panic_if_poison(self) -> (r: Self::PoisonlessResult)
        requires
            !self.spec_is_poison(),
        ensures
            r == self.spec_handle_poison(),
    ;
}

/// The result type returned by [`ThreadCheckedMutex::lock`].
///
/// [`ThreadCheckedMutex::lock`]: crate::ThreadCheckedMutex::lock
pub type LockResult<T> = Result<T, LockError<T>>;

/// A variation of [`LockResult<T>`] which cannot possibly be a poison error.
pub type PoisonlessLockResult<T> = Result<T, LockError<Infallible>>;

/// An error that may be returned by [`ThreadCheckedMutex::lock`].
///
/// [`ThreadCheckedMutex::lock`]: crate::ThreadCheckedMutex::lock
#[derive(Debug)]
pub enum LockError<T> {
    /// Returned when a lock was acquired, but the lock was poisoned.
    Poisoned(PoisonError<T>),
    /// Returned when a lock failed to be acquired because the thread
    /// attempting to acquire the lock was already holding it.
    LockedByCurrentThread,
}

impl<T> LockError<T> {
    /// Converts a poison error into a successful result carrying the wrapped
    /// value, and returns any other error unchanged in an [`Err`].
    pub fn ignore_poison(self) -> (r: PoisonlessLockResult<T>)
        ensures
            self matches LockError::Poisoned(p) ==> r == Ok::<T, LockError<Infallible>>(
                p.spec_inner(),
            ),
            self is LockedByCurrentThread ==> r == Err::<T, LockError<Infallible>>(
                LockError::LockedByCurrentThread,
            ),
    {
        match self {
            LockError::Poisoned(poison) => Ok(poison.into_inner()),
            LockError::LockedByCurrentThread => Err(LockError::LockedByCurrentThread),
        }
    }

    /// Returns the error unchanged, modulo the type of its payload. The
    /// caller must know that the error was not caused by poison.
    pub fn panic_if_poison(self) -> (r: LockError<Infallible>)
        requires
            !(self is Poisoned),
        ensures
            r is LockedByCurrentThread,
    {
        LockError::LockedByCurrentThread
    }
}

impl<T> HandlePoisonResult for Result<T, LockError<T>> {
    type PoisonlessResult = PoisonlessLockResult<T>;

    open spec fn spec_is_poison(&self) -> bool {
        self matches Err(LockError::Poisoned(_))
    }

    open spec fn spec_handle_poison(self) -> PoisonlessLockResult<T> {
        match self {
            Ok(t) => Ok(t),
            Err(LockError::Poisoned(p)) => Ok(p.spec_inner()),
            Err(LockError::LockedByCurrentThread) => Err(LockError::LockedByCurrentThread),
        }
    }

    fn ignore_poison(self) -> (r: Self::PoisonlessResult) {
        match self {
            Ok(t) => Ok(t),
            Err(error) => match error.ignore_poison() {
                Ok(t) => Ok(t),
                Err(poisonless) => Err(poisonless),
            },
        }
    }

    fn panic_if_poison(self) -> (r: Self::PoisonlessResult) {
        match self {
            Ok(t) => Ok(t),
            Err(error) => Err(error.panic_if_poison()),
        }
    }
}

impl vstd::std_specs::cmp::PartialEqSpecImpl for LockError<Infallible> {
    open spec fn obeys_eq_spec() -> bool {
        true
    }

    open spec fn eq_spec(&self, other: &Self) -> bool {
        self is LockedByCurrentThread <==> other is LockedByCurrentThread
    }
}

impl PartialEq for LockError<Infallible> {
    fn eq(&self, other: &Self) -> bool {
        match (self, other) {
            (LockError::LockedByCurrentThread, LockError::LockedByCurrentThread) => true,
            (LockError::Poisoned(_), LockError::Poisoned(_)) => true,
            _ => false,
        }
    }
}

impl Eq for LockError<Infallible> {

}

impl<T> vstd::std_specs::convert::FromSpecImpl<PoisonError<T>> for LockError<T> {
    open spec fn obeys_from_spec() -> bool {
        true
    }

    open spec fn from_spec(poison: PoisonError<T>) -> Self {
        LockError::Poisoned(poison)
    }
}

impl<T> From<PoisonError<T>> for LockError<T> {
    fn from(poison: PoisonError<T>) -> (r: Self) {
        LockError::Poisoned(poison)
    }
}

/// The result type returned by [`ThreadCheckedMutex::try_lock`].
///
/// [`ThreadCheckedMutex::try_lock`]: crate::ThreadCheckedMutex::try_lock
pub type TryLockResult<T> = Result<T, TryLockError<T>>;

/// A variation of [`TryLockResult<T>`] which cannot possibly be a poison
/// error.
pub type PoisonlessTryLockResult<T> = Result<T, TryLockError<Infallible>>;

/// An error that may be returned by [`ThreadCheckedMutex::try_lock`].
///
/// [`ThreadCheckedMutex::try_lock`]: crate::ThreadCheckedMutex::try_lock
#[derive(Debug)]
pub enum TryLockError<T> {
    /// Returned when a lock was acquired, but the lock was poisoned.
    Poisoned(PoisonError<T>),
    /// Returned when a lock failed to be acquired because the thread
    /// attempting to acquire the lock was already holding it.
    LockedByCurrentThread,
    /// Returned when a lock failed to be acquired because the lock was held
    /// by a thread other than the thread attempting to acquire it.
    WouldBlock,
}

impl<T> TryLockError<T> {
    /// Converts a poison error into a successful result carrying the wrapped
    /// value, and returns any other error unchanged in an [`Err`].
    pub fn ignore_poison(self) -> (r: PoisonlessTryLockResult<T>)
        ensures
            self matches TryLockError::Poisoned(p) ==> r == Ok::<T, TryLockError<Infallible>>(
                p.spec_inner(),
            ),
            self is LockedByCurrentThread ==> r == Err::<T, TryLockError<Infallible>>(
                TryLockError::LockedByCurrentThread,
            ),
            self is WouldBlock ==> r == Err::<T, TryLockError<Infallible>>(
                TryLockError::WouldBlock,
            ),
    {
        match self {
            TryLockError::Poisoned(poison) => Ok(poison.into_inner()),
            TryLockError::LockedByCurrentThread => Err(TryLockError::LockedByCurrentThread),
            TryLockError::WouldBlock => Err(TryLockError::WouldBlock),
        }
    }

    /// Returns the error unchanged, modulo the type of its payload. The
    /// caller must know that the error was not caused by poison.
    pub fn panic_if_poison(self) -> (r: TryLockError<Infallible>)
        requires
            !(self is Poisoned),
        ensures
            self is LockedByCurrentThread ==> r is LockedByCurrentThread,
            self is WouldBlock ==> r is WouldBlock,
    {
        match self {
            TryLockError::LockedByCurrentThread => TryLockError::LockedByCurrentThread,
            TryLockError::WouldBlock => TryLockError::WouldBlock,
            // Unreachable: the precondition excludes poison errors.
            TryLockError::Poisoned(_) => TryLockError::WouldBlock,
        }
    }
}

impl<T> HandlePoisonResult for Result<T, TryLockError<T>> {
    type PoisonlessResult = PoisonlessTryLockResult<T>;

    open spec fn spec_is_poison(&self) -> bool {
        self matches Err(TryLockError::Poisoned(_))
    }

    open spec fn spec_handle_poison(self) -> PoisonlessTryLockResult<T> {
        match self {
            Ok(t) => Ok(t),
            Err(TryLockError::Poisoned(p)) => Ok(p.spec_inner()),
            Err(TryLockError::LockedByCurrentThread) => Err(TryLockError::LockedByCurrentThread),
            Err(TryLockError::WouldBlock) => Err(TryLockError::WouldBlock),
        }
    }

    fn ignore_poison(self) -> (r: Self::PoisonlessResult) {
        match self {
            Ok(t) => Ok(t),
            Err(error) => match error.ignore_poison() {
                Ok(t) => Ok(t),
                Err(poisonless) => Err(poisonless),
            },
        }
    }

    fn panic_if_poison(self) -> (r: Self::PoisonlessResult) {
        match self {
            Ok(t) => Ok(t),
            Err(error) => Err(error.panic_if_poison()),
        }
    }
}

impl vstd::std_specs::cmp::PartialEqSpecImpl for TryLockError<Infallible> {
    open spec fn obeys_eq_spec() -> bool {
        true
    }

    open spec fn eq_spec(&self, other: &Self) -> bool {
        &&& self is LockedByCurrentThread <==> other is LockedByCurrentThread
        &&& self is WouldBlock <==> other is WouldBlock
    }
}

impl PartialEq for TryLockError<Infallible> {
    fn eq(&self, other: &Self) -> bool {
        match (self, other) {
            (TryLockError::LockedByCurrentThread, TryLockError::LockedByCurrentThread) => true,
            (TryLockError::WouldBlock, TryLockError::WouldBlock) => true,
            (TryLockError::Poisoned(_), TryLockError::Poisoned(_)) => true,
            _ => false,
        }
    }
}

impl Eq for TryLockError<Infallible> {

}

impl<T> vstd::std_specs::convert::FromSpecImpl<PoisonError<T>> for TryLockError<T> {
    open spec fn obeys_from_spec() -> bool {
        true
    }

    open spec fn from_spec(poison: PoisonError<T>) -> Self {
        TryLockError::Poisoned(poison)
    }
}

impl<T> From<PoisonError<T>> for TryLockError<T> {
    fn from(poison: PoisonError<T>) -> (r: Self) {
        TryLockError::Poisoned(poison)
    }
}

/// The result type returned by [`ThreadCheckedMutex::into_inner`] or
/// [`ThreadCheckedMutex::get_mut`].
///
/// [`ThreadCheckedMutex::into_inner`]: crate::ThreadCheckedMutex::into_inner
/// [`ThreadCheckedMutex::get_mut`]: crate::ThreadCheckedMutex::get_mut
pub type AccessResult<T> = Result<T, AccessError<T>>;

/// A variation of [`AccessResult<T>`] which cannot possibly be a poison
/// error.
///
/// Note that every [`AccessError`] is caused by poison, so this result is
/// always [`Ok`].
pub type PoisonlessAccessResult<T> = Result<T, AccessError<Infallible>>;

/// Returned when a lock's data was accessed, but the lock was poisoned.
///
/// This error may be returned by [`ThreadCheckedMutex::into_inner`] or
/// [`ThreadCheckedMutex::get_mut`]. It has no "would block" or "already
/// held" variant, because those operations require unique ownership or
/// borrowing, which already proves that no concurrent access is possible.
///
/// [`ThreadCheckedMutex::into_inner`]: crate::ThreadCheckedMutex::into_inner
/// [`ThreadCheckedMutex::get_mut`]: crate::ThreadCheckedMutex::get_mut
#[derive(Debug)]
pub struct AccessError<T> {
    /// The only possible cause of an `AccessError` is a poisoned lock.
    pub poison: PoisonError<T>,
}

impl<T> AccessError<T> {
    /// Converts this poison error into a successful result carrying the
    /// wrapped value. Since every `AccessError` is caused by poison, the
    /// returned result is always [`Ok`].
    pub fn ignore_poison(self) -> (r: PoisonlessAccessResult<T>)
        ensures
            r == Ok::<T, AccessError<Infallible>>(self.poison.spec_inner()),
    {
        Ok(self.poison.into_inner())
    }
}

impl<T> HandlePoisonResult for Result<T, AccessError<T>> {
    type PoisonlessResult = PoisonlessAccessResult<T>;

    open spec fn spec_is_poison(&self) -> bool {
        self is Err
    }

    open spec fn spec_handle_poison(self) -> PoisonlessAccessResult<T> {
        match self {
            Ok(t) => Ok(t),
            Err(e) => Ok(e.poison.spec_inner()),
        }
    }

    fn ignore_poison(self) -> (r: Self::PoisonlessResult) {
        match self {
            Ok(t) => Ok(t),
            Err(error) => error.ignore_poison(),
        }
    }

    fn panic_if_poison(self) -> (r: Self::PoisonlessResult) {
        match self {
            Ok(t) => Ok(t),
            // Unreachable: the precondition excludes every `AccessError`.
            Err(error) => error.ignore_poison(),
        }
    }
}

impl vstd::std_specs::cmp::PartialEqSpecImpl for AccessError<Infallible> {
    open spec fn obeys_eq_spec() -> bool {
        true
    }

    open spec fn eq_spec(&self, _other: &Self) -> bool {
        true
    }
}

impl PartialEq for AccessError<Infallible> {
    fn eq(&self, _other: &Self) -> bool {
        true
    }
}

impl Eq for AccessError<Infallible> {

}

impl<T> vstd::std_specs::convert::FromSpecImpl<PoisonError<T>> for AccessError<T> {
    open spec fn obeys_from_spec() -> bool {
        true
    }

    open spec fn from_spec(poison: PoisonError<T>) -> Self {
        AccessError { poison }
    }
}

impl<T> From<PoisonError<T>> for AccessError<T> {
    fn from(poison: PoisonError<T>) -> (r: Self) {
        AccessError { poison }
    }
}

} // verus!
