//! The search path on a platform that has no configuration store: there is nothing to
//! read and nothing to write, and a session saves and restores "no value".

use crate::session::with_saved_global_state;
use std::sync::LockResult;
use std::sync::MutexGuard;
use vstd::pervasive::unreached;
use vstd::prelude::*;

verus! {

/// Reads the search path slot: always "absent", and never a failure.
pub fn get_path() -> (read: Result<Option<()>, std::io::Error>)
    ensures
        read == Ok::<Option<()>, std::io::Error>(None),
{
    Ok(None)
}

/// Writes the search path slot back: there is nothing to write.
pub fn restore_path(p: Option<()>) {
}

/// Runs `f` in a session on the search path slot and hands back what `f` returned.
/// `held` is what taking the session lock returned.
pub fn with_saved_path<'a, R, F>(held: &LockResult<MutexGuard<'a, ()>>, f: F) -> (r: R) where
    F: FnOnce() -> R,

    requires
        call_requires(f, ()),
    ensures
        call_ensures(f, (), r),
{
    let mut store = ();
    let getter = |w: &()| -> (read: Result<Option<()>, std::io::Error>)
        ensures
            read is Ok,
        { get_path() };
    let setter = |w: &mut (), p: Option<()>| { restore_path(p) };
    let body = move |w: &mut ()| -> (r: R)
        ensures
            call_ensures(f, (), r),
        { f() };
    match with_saved_global_state(held, &mut store, getter, setter, body) {
        Ok(r) => r,
        Err(_) => unreached(),
    }
}

} // verus!
