//! The session lock: one `std::sync::Mutex<()>` for the whole process, owned by the caller.
//!
//! A session does not take the lock itself. It is handed what `lock` returned, and the
//! borrow of that value lasts as long as the session does, so the lock is held from
//! before the snapshot until after the write that restores it. A poisoned lock serves as
//! well: the guard then lies in the error.

use vstd::prelude::*;

verus! {

/// `std::sync::MutexGuard`: while it lives, the lock is held.
#[verifier::external_type_specification]
#[verifier::external_body]
#[verifier::reject_recursive_types(T)]
pub struct ExMutexGuard<'a, T: ?Sized + 'a>(std::sync::MutexGuard<'a, T>);

/// `std::sync::PoisonError`: what `lock` returns for a lock that a panic has poisoned.
#[verifier::external_type_specification]
#[verifier::external_body]
#[verifier::reject_recursive_types(T)]
pub struct ExPoisonError<T>(std::sync::PoisonError<T>);

} // verus!
