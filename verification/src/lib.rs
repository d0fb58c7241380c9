//! A mutual-exclusion primitive that detects, and reports as a recoverable
//! error, the case where a thread tries to acquire a lock it already holds.
//!
//! A plain exclusive lock either blocks forever or panics when a thread
//! re-enters its own lock. The types here instead track, per thread, the set
//! of locks currently held by that thread, so that a second acquisition
//! attempt from the same thread fails gracefully with a distinguishable error.
//!
//! Each thread keeps one [`LockedMutexes`] registry of its own (typically in
//! thread-local storage) and passes it to every acquisition and release, so
//! every contract here can say exactly what an operation does to the calling
//! thread's held set. The embedding program supplies the registry plumbing
//! and the RAII scope-exit release around [`ThreadCheckedMutexGuard::unlock`].
//!
//! The crate also carries the pure logic of the repository's check tool,
//! which runs build commands over a fixed set of packages and caches their
//! output: the command, channel, target and package tables, the
//! command-line parser, and the cache bookkeeping rules. The I/O around
//! that logic lives with its caller.

mod commands;
mod data;
mod error;
mod locked_mutexes_inner;
mod mutex;
mod mutex_id;
mod package_cache;
mod parsing;

pub use crate::commands::CargoCommand;
pub use crate::data::{ArgsError, Channel, Package, Target};
pub use crate::error::{
    AccessError, AccessResult, HandlePoisonResult, LockError, LockResult, PoisonError,
    PoisonlessAccessResult, PoisonlessLockResult, PoisonlessTryLockResult, TryLockError,
    TryLockResult,
};
pub use crate::locked_mutexes_inner::{
    LockedMutexes, LockedMutexesInner, inline_ids_set, lemma_holding_is_bracketed,
    lemma_register_all_adds, lemma_unlock_in_any_order_clears, lemma_unregister_all_removes,
    register_all, unregister_all,
};
pub use crate::mutex::{ThreadCheckedMutex, ThreadCheckedMutexGuard};
pub use crate::mutex_id::{MutexID, MutexIdAllocator, MAX_MUTEXES_PER_PROCESS};
pub use crate::package_cache::{package_cache_path, packages_to_check, packages_to_print};
pub use crate::parsing::{
    ArgsErrorView, ParsedArgs, RawArgsView, spec_parse_raw, spec_selected,
    spec_selected_targets, spec_target_chosen,
};
