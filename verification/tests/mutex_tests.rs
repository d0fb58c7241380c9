use thread_checked_lock::{
    LockError, LockedMutexes, MutexIdAllocator, ThreadCheckedMutex, TryLockError,
};

#[test]
fn mutex_lock_then_is_locked() {
    let mut ids = MutexIdAllocator::new();
    let mut registry = LockedMutexes::new();

    let mutex = ThreadCheckedMutex::new(0_u8, &mut ids);

    assert!(!mutex.locked_by_current_thread(&registry));

    let _guard = mutex.lock(&mut registry).unwrap();

    assert!(mutex.locked_by_current_thread(&registry));
}

#[test]
fn mutex_lock_unlock_isnt_locked() {
    let mut ids = MutexIdAllocator::new();
    let mut registry = LockedMutexes::new();

    let mutex = ThreadCheckedMutex::new(0_u8, &mut ids);

    let guard = mutex.lock(&mut registry).unwrap();

    assert!(mutex.locked_by_current_thread(&registry));

    assert!(guard.unlock(&mut registry));

    assert!(!mutex.locked_by_current_thread(&registry));
}

#[test]
fn lock_unlock_lock() {
    let mut ids = MutexIdAllocator::new();
    let mut registry = LockedMutexes::new();

    let mutex = ThreadCheckedMutex::new(0_u8, &mut ids);

    {
        let guard = mutex.lock(&mut registry).unwrap();
        guard.unlock(&mut registry);
    }

    assert!(!mutex.locked_by_current_thread(&registry));

    let _guard = mutex.lock(&mut registry).unwrap();

    assert!(mutex.locked_by_current_thread(&registry));
}

#[test]
fn mutex_lock_lock_unlock_lock() {
    let mut ids = MutexIdAllocator::new();
    let mut registry = LockedMutexes::new();

    let mutex = ThreadCheckedMutex::new(0_u8, &mut ids);

    let guard = mutex.lock(&mut registry).unwrap();

    // An additional attempt to lock should fail.
    assert!(matches!(mutex.lock(&mut registry), Err(LockError::LockedByCurrentThread)));

    guard.unlock(&mut registry);

    // Now it should succeed.
    let _guard = mutex.lock(&mut registry).unwrap();
}

#[test]
fn try_lock_while_held_by_same_thread() {
    let mut ids = MutexIdAllocator::new();
    let mut registry = LockedMutexes::new();

    let mutex = ThreadCheckedMutex::new((), &mut ids);

    let guard = mutex.try_lock(&mut registry).unwrap();

    // A second non-blocking attempt from the holding thread reports the
    // reentrancy, not `WouldBlock`.
    assert!(matches!(mutex.try_lock(&mut registry), Err(TryLockError::LockedByCurrentThread)));

    guard.unlock(&mut registry);

    let _guard = mutex.try_lock(&mut registry).unwrap();
}

#[test]
fn two_mutexes_are_tracked_independently() {
    let mut ids = MutexIdAllocator::new();
    let mut registry = LockedMutexes::new();

    let first = ThreadCheckedMutex::new(1_u8, &mut ids);
    let second = ThreadCheckedMutex::new(2_u8, &mut ids);

    let first_guard = first.lock(&mut registry).unwrap();
    assert!(first.locked_by_current_thread(&registry));
    assert!(!second.locked_by_current_thread(&registry));

    let second_guard = second.lock(&mut registry).unwrap();
    assert!(second.locked_by_current_thread(&registry));

    first_guard.unlock(&mut registry);
    assert!(!first.locked_by_current_thread(&registry));
    assert!(second.locked_by_current_thread(&registry));

    second_guard.unlock(&mut registry);
    assert!(!second.locked_by_current_thread(&registry));
}

#[test]
fn guard_reads_and_writes_protected_value() {
    let mut ids = MutexIdAllocator::new();
    let mut registry = LockedMutexes::new();

    let mutex = ThreadCheckedMutex::new(11_u8, &mut ids);

    let mut guard = mutex.lock(&mut registry).unwrap();
    assert_eq!(*guard.get(), 11);
    guard.set(55);
    assert_eq!(*guard.get(), 55);
    *guard.get_mut() += 1;
    assert_eq!(*guard.get(), 56);
    guard.set(55);
    guard.unlock(&mut registry);

    let again = mutex.lock(&mut registry).unwrap();
    assert_eq!(*again.get(), 55);
    again.unlock(&mut registry);
}

#[test]
fn get_mut_and_into_inner_see_latest_value() {
    let mut ids = MutexIdAllocator::new();
    let mut registry = LockedMutexes::new();

    let mut mutex = ThreadCheckedMutex::new(1_u8, &mut ids);

    {
        let mut guard = mutex.lock(&mut registry).unwrap();
        guard.set(5);
        guard.unlock(&mut registry);
    }

    // Direct access bypasses the registry entirely: nothing is registered.
    assert!(!mutex.locked_by_current_thread(&registry));

    let (value, poisoned) = mutex.get_mut();
    assert!(!poisoned);
    assert_eq!(*value, 5);
    *value = 9;

    assert!(!mutex.locked_by_current_thread(&registry));
    assert!(!mutex.is_poisoned());

    assert_eq!(mutex.into_inner().unwrap(), 9);
}

#[test]
fn clear_poison_on_clean_mutex_is_harmless() {
    let mut ids = MutexIdAllocator::new();
    let mut registry = LockedMutexes::new();

    let mutex = ThreadCheckedMutex::new(0_u8, &mut ids);
    assert!(!mutex.is_poisoned());
    mutex.clear_poison();
    assert!(!mutex.is_poisoned());

    let guard = mutex.lock(&mut registry).unwrap();
    guard.unlock(&mut registry);
}

#[test]
fn relock_scenario_registers_and_deregisters() {
    // One thread: a first lock succeeds and registers the identity, a second
    // lock fails fast, releasing the guard deregisters, and a third lock
    // succeeds again.
    let mut ids = MutexIdAllocator::new();
    let mut registry = LockedMutexes::new();

    let mutex = ThreadCheckedMutex::new((), &mut ids);

    let first = mutex.lock(&mut registry).unwrap();
    assert!(mutex.locked_by_current_thread(&registry));

    assert!(matches!(mutex.lock(&mut registry), Err(LockError::LockedByCurrentThread)));
    assert!(matches!(mutex.try_lock(&mut registry), Err(TryLockError::LockedByCurrentThread)));

    assert!(first.unlock(&mut registry));
    assert!(!mutex.locked_by_current_thread(&registry));

    let third = mutex.lock(&mut registry).unwrap();
    assert!(mutex.locked_by_current_thread(&registry));
    third.unlock(&mut registry);
}
