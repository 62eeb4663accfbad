//! Sessions on named values of a configuration store, such as the Windows registry.
//!
//! A value is found by a subkey below a root and by its name. The store itself is reached
//! through two operations of the caller: `read` fetches the raw value of that name, and
//! `write` carries out one [`StoreWrite`]. Both get the root, the subkey and the name.

use crate::session::with_saved_global_state;
use std::sync::LockResult;
use std::sync::MutexGuard;
use vstd::prelude::*;

verus! {

/// `std::io::Error`, carried through as it is.
#[verifier::external_type_specification]
#[verifier::external_body]
pub struct ExIoError(std::io::Error);

/// What a session needs to know of a failed read.
#[derive(Clone, Copy, Debug, PartialEq, Eq, Structural)]
pub enum ReadFailure {
    /// The store holds no value of that name.
    NotFound,
    /// Anything else: the read itself did not work.
    Other,
}

/// One write to a value of the store.
#[derive(Debug, PartialEq, Eq)]
pub enum StoreWrite<V> {
    /// Set the value.
    Put(V),
    /// Delete the value, if the store holds one.
    Delete,
}

/// How `std::io::Error::kind` sorts an error: `NotFound` for `ErrorKind::NotFound`,
/// `Other` for every other kind.
pub uninterp spec fn failure_of(e: std::io::Error) -> ReadFailure;

/// `std::io::Error::kind`, reduced to the one distinction that a snapshot depends on.
#[verifier::external_body]
pub(crate) fn classify(e: &std::io::Error) -> (kind: ReadFailure)
    ensures
        kind == failure_of(*e),
{
    match e.kind() {
        std::io::ErrorKind::NotFound => ReadFailure::NotFound,
        _ => ReadFailure::Other,
    }
}

/// The snapshot that a failed read stands for, once the failure is sorted.
pub open spec fn absent_or_failed<V, E>(kind: ReadFailure, e: E) -> Result<Option<V>, E> {
    match kind {
        ReadFailure::NotFound => Ok(None),
        ReadFailure::Other => Err(e),
    }
}

/// The snapshot that a finished read stands for.
pub open spec fn snapshot_of_read<V>(raw: Result<V, std::io::Error>) -> Result<
    Option<V>,
    std::io::Error,
> {
    match raw {
        Ok(v) => Ok(Some(v)),
        Err(e) => absent_or_failed(failure_of(e), e),
    }
}

/// The write that restores a snapshot.
pub open spec fn write_for<V>(p: Option<V>) -> StoreWrite<V> {
    match p {
        Some(v) => StoreWrite::Put(v),
        None => StoreWrite::Delete,
    }
}

/// A value that is not there is no failure: it is the snapshot "absent". Every other
/// failure stays the failure it was.
pub fn absent_if_not_found<V, E>(kind: ReadFailure, e: E) -> (snapshot: Result<Option<V>, E>)
    ensures
        snapshot == absent_or_failed::<V, E>(kind, e),
{
    match kind {
        ReadFailure::NotFound => Ok(None),
        ReadFailure::Other => Err(e),
    }
}

/// Turns the outcome of a raw read into a snapshot: the value that was read, "absent"
/// where the store reports that there is none, and the failure itself for any other
/// failure.
pub fn snapshot_from_read<V>(raw: Result<V, std::io::Error>) -> (snapshot: Result<
    Option<V>,
    std::io::Error,
>)
    ensures
        snapshot == snapshot_of_read(raw),
{
    match raw {
        Ok(v) => Ok(Some(v)),
        Err(e) => {
            let kind = classify(&e);
            absent_if_not_found(kind, e)
        },
    }
}

/// Chooses the write that restores a snapshot: the value is set again where there was
/// one, and deleted where there was none.
pub fn write_to_restore<V>(p: Option<V>) -> (write: StoreWrite<V>)
    ensures
        write == write_for(p),
{
    match p {
        Some(v) => StoreWrite::Put(v),
        None => StoreWrite::Delete,
    }
}

/// Takes a snapshot of the value `name` under `subkey`: one `read`, turned into a
/// snapshot by [`snapshot_from_read`].
pub fn get_reg_value<W, V, G>(root: &W, subkey: &str, name: &str, read: G) -> (snapshot: Result<
    Option<V>,
    std::io::Error,
>) where G: FnOnce(&W, &str, &str) -> Result<V, std::io::Error>
    requires
        call_requires(read, (root, subkey, name)),
    ensures
        exists|raw: Result<V, std::io::Error>|
            call_ensures(read, (root, subkey, name), raw) && snapshot == snapshot_of_read(raw),
{
    snapshot_from_read(read(root, subkey, name))
}

/// Puts the snapshot `p` of the value `name` under `subkey` back: one `write`, of the
/// value where there was one and of a delete where there was none. Whether that write
/// worked is not reported: a failure is dropped here.
pub fn restore_reg_value<W, V, P>(root: &mut W, subkey: &str, name: &str, p: Option<V>, write: P) where
    P: FnOnce(&mut W, &str, &str, StoreWrite<V>) -> Result<(), std::io::Error>,

    requires
        forall|w: &mut W| *w == *old(root) ==> call_requires(write, (w, subkey, name, write_for(p))),
    ensures
        exists|x: &mut W, written: Result<(), std::io::Error>|
            *x == *old(root) && *final(x) == *final(root) && call_ensures(
                write,
                (x, subkey, name, write_for(p)),
                written,
            ),
{
    let _ = write(root, subkey, name, write_to_restore(p));
}

/// Takes a snapshot of the user's search path: the value `PATH` under `Environment`.
pub fn get_path<W, V, G>(root: &W, read: G) -> (snapshot: Result<Option<V>, std::io::Error>) where
    G: FnOnce(&W, &str, &str) -> Result<V, std::io::Error>,

    requires
        call_requires(read, (root, "Environment", "PATH")),
    ensures
        exists|raw: Result<V, std::io::Error>|
            call_ensures(read, (root, "Environment", "PATH"), raw) && snapshot
                == snapshot_of_read(raw),
{
    get_reg_value(root, "Environment", "PATH", read)
}

/// Puts a snapshot of the user's search path back.
pub fn restore_path<W, V, P>(root: &mut W, p: Option<V>, write: P) where
    P: FnOnce(&mut W, &str, &str, StoreWrite<V>) -> Result<(), std::io::Error>,

    requires
        forall|w: &mut W|
            *w == *old(root) ==> call_requires(write, (w, "Environment", "PATH", write_for(p))),
    ensures
        exists|x: &mut W, written: Result<(), std::io::Error>|
            *x == *old(root) && *final(x) == *final(root) && call_ensures(
                write,
                (x, "Environment", "PATH", write_for(p)),
                written,
            ),
{
    restore_reg_value(root, "Environment", "PATH", p, write)
}

/// Runs `f` in a guarded session on the user's search path: the value `PATH` under
/// `Environment`. `held` is what taking the session lock returned.
///
/// The snapshot is what `read` found, "absent" where the store reports no such value; any
/// other failure of `read` ends the session before `f` runs, with the store as it was.
/// After `f`, `write` gets the write that restores the snapshot, whatever `f` returned.
/// In the contract, `b` is the store as `f` held it and `x` the store as `write` held it.
pub fn with_saved_path<'a, W, V, R, G, P, B>(
    held: &LockResult<MutexGuard<'a, ()>>,
    root: &mut W,
    read: G,
    write: P,
    f: B,
) -> (outcome: Result<R, std::io::Error>) where
    G: FnOnce(&W, &str, &str) -> Result<V, std::io::Error>,
    P: FnOnce(&mut W, &str, &str, StoreWrite<V>) -> Result<(), std::io::Error>,
    B: FnOnce(&mut W) -> R,

    requires
        call_requires(read, (&*old(root), "Environment", "PATH")),
        forall|w: &mut W, action: StoreWrite<V>|
            call_requires(write, (w, "Environment", "PATH", action)),
        forall|w: &mut W| *w == *old(root) ==> call_requires(f, (w,)),
    ensures
        match outcome {
            Err(e) => *final(root) == *old(root) && exists|raw: Result<V, std::io::Error>|
                call_ensures(read, (&*old(root), "Environment", "PATH"), raw)
                    && snapshot_of_read(raw) == Err::<Option<V>, std::io::Error>(e),
            Ok(r) => exists|
                raw: Result<V, std::io::Error>,
                snapshot: Option<V>,
                b: &mut W,
                x: &mut W,
                written: Result<(), std::io::Error>,
            |
                call_ensures(read, (&*old(root), "Environment", "PATH"), raw)
                    && snapshot_of_read(raw) == Ok::<Option<V>, std::io::Error>(snapshot)
                    && *b == *old(root) && call_ensures(f, (b,), r) && *x == *final(b)
                    && call_ensures(write, (x, "Environment", "PATH", write_for(snapshot)), written)
                    && *final(root) == *final(x),
        },
{
    let getter = move |w: &W| -> (found: Result<Option<V>, std::io::Error>)
        requires
            call_requires(read, (w, "Environment", "PATH")),
        ensures
            exists|raw: Result<V, std::io::Error>|
                call_ensures(read, (w, "Environment", "PATH"), raw) && found == snapshot_of_read(raw),
        { get_path(w, read) };
    let setter = move |w: &mut W, p: Option<V>|
        ensures
            exists|x: &mut W, written: Result<(), std::io::Error>|
                *x == *old(w) && *final(x) == *final(w) && call_ensures(
                    write,
                    (x, "Environment", "PATH", write_for(p)),
                    written,
                ),
        { restore_path(w, p, write) };
    with_saved_global_state(held, root, getter, setter, f)
}

/// Runs `f` in a guarded session on the version shown in the list of installed programs:
/// the value `DisplayVersion` under `uninstall_entry`. `held` is what taking the session
/// lock returned.
///
/// The snapshot is what `read` found, "absent" where the store reports no such value; any
/// other failure of `read` ends the session before `f` runs, with the store as it was.
/// After `f`, `write` gets the write that restores the snapshot, whatever `f` returned.
/// In the contract, `b` is the store as `f` held it and `x` the store as `write` held it.
pub fn with_saved_programs_display_version<'a, W, V, R, G, P, B>(
    held: &LockResult<MutexGuard<'a, ()>>,
    root: &mut W,
    uninstall_entry: &str,
    read: G,
    write: P,
    f: B,
) -> (outcome: Result<R, std::io::Error>) where
    G: FnOnce(&W, &str, &str) -> Result<V, std::io::Error>,
    P: FnOnce(&mut W, &str, &str, StoreWrite<V>) -> Result<(), std::io::Error>,
    B: FnOnce(&mut W) -> R,

    requires
        call_requires(read, (&*old(root), uninstall_entry, "DisplayVersion")),
        forall|w: &mut W, action: StoreWrite<V>|
            call_requires(write, (w, uninstall_entry, "DisplayVersion", action)),
        forall|w: &mut W| *w == *old(root) ==> call_requires(f, (w,)),
    ensures
        match outcome {
            Err(e) => *final(root) == *old(root) && exists|raw: Result<V, std::io::Error>|
                call_ensures(read, (&*old(root), uninstall_entry, "DisplayVersion"), raw)
                    && snapshot_of_read(raw) == Err::<Option<V>, std::io::Error>(e),
            Ok(r) => exists|
                raw: Result<V, std::io::Error>,
                snapshot: Option<V>,
                b: &mut W,
                x: &mut W,
                written: Result<(), std::io::Error>,
            |
                call_ensures(read, (&*old(root), uninstall_entry, "DisplayVersion"), raw)
                    && snapshot_of_read(raw) == Ok::<Option<V>, std::io::Error>(snapshot)
                    && *b == *old(root) && call_ensures(f, (b,), r) && *x == *final(b)
                    && call_ensures(write, (x, uninstall_entry, "DisplayVersion", write_for(snapshot)), written)
                    && *final(root) == *final(x),
        },
{
    let getter = move |w: &W| -> (found: Result<Option<V>, std::io::Error>)
        requires
            call_requires(read, (w, uninstall_entry, "DisplayVersion")),
        ensures
            exists|raw: Result<V, std::io::Error>|
                call_ensures(read, (w, uninstall_entry, "DisplayVersion"), raw) && found == snapshot_of_read(raw),
        { get_reg_value(w, uninstall_entry, "DisplayVersion", read) };
    let setter = move |w: &mut W, p: Option<V>|
        ensures
            exists|x: &mut W, written: Result<(), std::io::Error>|
                *x == *old(w) && *final(x) == *final(w) && call_ensures(
                    write,
                    (x, uninstall_entry, "DisplayVersion", write_for(p)),
                    written,
                ),
        { restore_reg_value(w, uninstall_entry, "DisplayVersion", p, write) };
    with_saved_global_state(held, root, getter, setter, f)
}

} // verus!
