use std::convert::Infallible;

use thread_checked_lock::{
    AccessResult, HandlePoisonResult, LockError, LockResult, PoisonError, TryLockError,
    TryLockResult,
};

#[test]
fn lock_ignore_poison() {
    // Ok
    let res_o: LockResult<()> = Ok(());
    assert!(matches!(res_o.ignore_poison(), Ok(())));

    // Err but not poison
    let res_e: LockResult<()> = Err(LockError::LockedByCurrentThread);
    assert!(matches!(res_e.ignore_poison(), Err(LockError::LockedByCurrentThread)));

    // Poison
    let res_p: LockResult<()> = Err(PoisonError::new(()).into());
    assert!(matches!(res_p.ignore_poison(), Ok(())));
}

#[test]
fn lock_panic_if_poison() {
    // Ok
    let res_o: LockResult<()> = Ok(());
    assert!(matches!(res_o.panic_if_poison(), Ok(())));

    // Err but not poison
    let res_e: LockResult<()> = Err(LockError::LockedByCurrentThread);
    assert!(matches!(res_e.panic_if_poison(), Err(LockError::LockedByCurrentThread)));
}

#[test]
fn try_lock_ignore_poison() {
    // Ok
    let res_o: TryLockResult<()> = Ok(());
    assert!(matches!(res_o.ignore_poison(), Ok(())));

    // Err but not poison
    let res_e: TryLockResult<()> = Err(TryLockError::LockedByCurrentThread);
    assert!(matches!(res_e.ignore_poison(), Err(TryLockError::LockedByCurrentThread)));

    // Poison
    let res_p: TryLockResult<()> = Err(PoisonError::new(()).into());
    assert!(matches!(res_p.ignore_poison(), Ok(())));
}

#[test]
fn try_lock_panic_if_poison() {
    // Ok
    let res_o: TryLockResult<()> = Ok(());
    assert!(matches!(res_o.panic_if_poison(), Ok(())));

    // Err but not poison
    let res_e: TryLockResult<()> = Err(TryLockError::LockedByCurrentThread);
    assert!(matches!(res_e.panic_if_poison(), Err(TryLockError::LockedByCurrentThread)));
}

#[test]
fn access_ignore_poison() {
    // Ok
    let res_o: AccessResult<()> = Ok(());
    assert!(matches!(res_o.ignore_poison(), Ok(())));

    // Err but not poison.. is impossible.

    // Poison
    let res_p: AccessResult<()> = Err(PoisonError::new(()).into());
    assert!(matches!(res_p.ignore_poison(), Ok(())));
}

#[test]
fn access_panic_if_poison() {
    // Ok
    let res_o: AccessResult<()> = Ok(());
    assert!(matches!(res_o.panic_if_poison(), Ok(())));

    // Err but not poison.. is impossible.
}

fn test_eq_impl<E: Eq, const N: usize>(errors: &[E; N]) {
    for (i, error) in errors.iter().enumerate() {
        for (j, other) in errors.iter().enumerate() {
            assert_eq!(i == j, error == other);
        }
    }
}

#[test]
fn eq_impls() {
    // The `::<Infallible>`s are not strictly necessary, but make it more clear.
    test_eq_impl(&[LockError::<Infallible>::LockedByCurrentThread]);
    test_eq_impl(&[
        TryLockError::<Infallible>::LockedByCurrentThread,
        TryLockError::<Infallible>::WouldBlock,
    ]);
    // `AccessError<Infallible>` is uninhabited.
}

#[test]
fn try_lock_would_block_survives_handling() {
    let res: TryLockResult<u8> = Err(TryLockError::WouldBlock);
    assert!(matches!(res.ignore_poison(), Err(TryLockError::WouldBlock)));
    let res: TryLockResult<u8> = Err(TryLockError::WouldBlock);
    assert!(matches!(res.panic_if_poison(), Err(TryLockError::WouldBlock)));
}

#[test]
fn poison_error_carries_value() {
    let poison = PoisonError::new(41_u8);
    assert_eq!(*poison.get_ref(), 41);
    assert_eq!(poison.into_inner(), 41);

    let error: LockError<u8> = PoisonError::new(7_u8).into();
    assert!(matches!(error.ignore_poison(), Ok(7)));

    let error: TryLockError<u8> = PoisonError::new(8_u8).into();
    assert!(matches!(error.ignore_poison(), Ok(8)));
}
