//! The guarded session: under the lock, snapshot, body, restore.

use crate::exit_scope::with_exit_action;
use std::sync::LockResult;
use std::sync::MutexGuard;
use vstd::prelude::*;

verus! {

/// Runs `f` on `world` in a guarded session.
///
/// `held` is what taking the session lock returned: the caller holds the lock for as long
/// as the session runs. The session reads the slot with `getter`. If
/// that read fails, the session ends there with the failure: `f` does not run, nothing is
/// written, and the world is as it was. Otherwise what was read is the snapshot, `f` runs
/// on the world, and `setter` is handed the world as `f` left it together with the
/// snapshot. What `f` returned, a failure of its own just as well, is handed back
/// unchanged after that write. The write also happens when `f` unwinds, and the lock
/// cannot be given up before it.
///
/// In the contract, `b` is the world as `f` held it and `x` the world as `setter` held it.
pub fn with_saved_global_state<'a, W, S, E, R, G, P, B>(
    held: &LockResult<MutexGuard<'a, ()>>,
    world: &mut W,
    getter: G,
    setter: P,
    f: B,
) -> (outcome: Result<R, E>) where
    G: FnOnce(&W) -> Result<Option<S>, E>,
    P: FnOnce(&mut W, Option<S>),
    B: FnOnce(&mut W) -> R,

    requires
        call_requires(getter, (&*old(world),)),
        forall|w: &mut W, s: Option<S>| call_requires(setter, (w, s)),
        forall|w: &mut W| *w == *old(world) ==> call_requires(f, (w,)),
    ensures
        match outcome {
            Err(e) => *final(world) == *old(world) && call_ensures(
                getter,
                (&*old(world),),
                Err::<Option<S>, E>(e),
            ),
            Ok(r) => exists|snapshot: Option<S>, b: &mut W, x: &mut W|
                call_ensures(getter, (&*old(world),), Ok::<Option<S>, E>(snapshot))
                    && *b == *old(world) && call_ensures(f, (b,), r) && *x == *final(b)
                    && call_ensures(setter, (x, snapshot), ()) && *final(world) == *final(x),
        },
{
    match getter(&*world) {
        Err(e) => Err(e),
        Ok(snapshot) => {
            let restore = move |w: &mut W|
                ensures
                    exists|x: &mut W|
                        *x == *old(w) && *final(x) == *final(w) && call_ensures(
                            setter,
                            (x, snapshot),
                            (),
                        ),
                { setter(w, snapshot) };
            Ok(with_exit_action(world, restore, f))
        },
    }
}

/// Restoration: after a session, a read of the slot finds what the session's own read
/// found before the body ran, whatever the body did to the slot.
///
/// The session led from the world `before` to the world `after`, with `snapshot` read
/// and `r` returned by the body. The law holds of a `getter` and a `setter` that belong
/// together: a read that follows a write, and does not fail, finds what was written.
pub proof fn restoration_round_trip<W, S, E, R, G, P, B>(
    getter: G,
    setter: P,
    f: B,
    snapshot: Option<S>,
    before: W,
    after: W,
    r: R,
    read: Result<Option<S>, E>,
) where
    G: FnOnce(&W) -> Result<Option<S>, E>,
    P: FnOnce(&mut W, Option<S>),
    B: FnOnce(&mut W) -> R,

    requires
        forall|x: &mut W, s: Option<S>, found: Result<Option<S>, E>|
            call_ensures(setter, (x, s), ()) && call_ensures(getter, (&*final(x),), found)
                && found is Ok ==> found == Ok::<Option<S>, E>(s),
        call_ensures(getter, (&before,), Ok::<Option<S>, E>(snapshot)),
        exists|b: &mut W, x: &mut W|
            *b == before && call_ensures(f, (b,), r) && *x == *final(b) && call_ensures(
                setter,
                (x, snapshot),
                (),
            ) && after == *final(x),
        call_ensures(getter, (&after,), read),
        read is Ok,
    ensures
        read == Ok::<Option<S>, E>(snapshot),
        call_ensures(getter, (&before,), read),
{
}

/// Restoration on the failure path: when the body fails, the failure reaches the caller
/// only after the snapshot was written back, and a read of the slot then finds the
/// snapshot again.
pub proof fn failure_path_restoration<W, S, E, T, X, G, P, B>(
    getter: G,
    setter: P,
    f: B,
    snapshot: Option<S>,
    before: W,
    after: W,
    failure: X,
    read: Result<Option<S>, E>,
) where
    G: FnOnce(&W) -> Result<Option<S>, E>,
    P: FnOnce(&mut W, Option<S>),
    B: FnOnce(&mut W) -> Result<T, X>,

    requires
        forall|x: &mut W, s: Option<S>, found: Result<Option<S>, E>|
            call_ensures(setter, (x, s), ()) && call_ensures(getter, (&*final(x),), found)
                && found is Ok ==> found == Ok::<Option<S>, E>(s),
        call_ensures(getter, (&before,), Ok::<Option<S>, E>(snapshot)),
        exists|b: &mut W, x: &mut W|
            *b == before && call_ensures(f, (b,), Err::<T, X>(failure)) && *x == *final(b) && call_ensures(
                setter,
                (x, snapshot),
                (),
            ) && after == *final(x),
        call_ensures(getter, (&after,), read),
        read is Ok,
    ensures
        exists|x: &mut W| call_ensures(setter, (x, snapshot), ()) && *final(x) == after,
        read == Ok::<Option<S>, E>(snapshot),
{
}

/// Absence comes back: when the session found the slot absent, the write that ends it is
/// a delete, and a read of the slot then finds it absent again, not empty.
pub proof fn absence_round_trip<W, S, E, R, G, P, B>(
    getter: G,
    setter: P,
    f: B,
    before: W,
    after: W,
    r: R,
    read: Result<Option<S>, E>,
) where
    G: FnOnce(&W) -> Result<Option<S>, E>,
    P: FnOnce(&mut W, Option<S>),
    B: FnOnce(&mut W) -> R,

    requires
        forall|x: &mut W, s: Option<S>, found: Result<Option<S>, E>|
            call_ensures(setter, (x, s), ()) && call_ensures(getter, (&*final(x),), found)
                && found is Ok ==> found == Ok::<Option<S>, E>(s),
        call_ensures(getter, (&before,), Ok::<Option<S>, E>(None::<S>)),
        exists|b: &mut W, x: &mut W|
            *b == before && call_ensures(f, (b,), r) && *x == *final(b) && call_ensures(
                setter,
                (x, None::<S>),
                (),
            ) && after == *final(x),
        call_ensures(getter, (&after,), read),
        read is Ok,
    ensures
        exists|x: &mut W| call_ensures(setter, (x, None::<S>), ()) && *final(x) == after,
        read == Ok::<Option<S>, E>(None),
{
}

/// Presence comes back: when the session found the value `v` in the slot, the write that
/// ends it sets `v`, and a read of the slot then finds exactly `v`, whether the body set
/// another value or deleted the slot.
pub proof fn presence_round_trip<W, S, E, R, G, P, B>(
    getter: G,
    setter: P,
    f: B,
    v: S,
    before: W,
    after: W,
    r: R,
    read: Result<Option<S>, E>,
) where
    G: FnOnce(&W) -> Result<Option<S>, E>,
    P: FnOnce(&mut W, Option<S>),
    B: FnOnce(&mut W) -> R,

    requires
        forall|x: &mut W, s: Option<S>, found: Result<Option<S>, E>|
            call_ensures(setter, (x, s), ()) && call_ensures(getter, (&*final(x),), found)
                && found is Ok ==> found == Ok::<Option<S>, E>(s),
        call_ensures(getter, (&before,), Ok::<Option<S>, E>(Some(v))),
        exists|b: &mut W, x: &mut W|
            *b == before && call_ensures(f, (b,), r) && *x == *final(b) && call_ensures(
                setter,
                (x, Some(v)),
                (),
            ) && after == *final(x),
        call_ensures(getter, (&after,), read),
        read is Ok,
    ensures
        exists|x: &mut W| call_ensures(setter, (x, Some(v)), ()) && *final(x) == after,
        read == Ok::<Option<S>, E>(Some(v)),
{
}

/// Sessions take turns: of two sessions that ran one after the other on the same world,
/// the second took its snapshot from the world as the write of the first had left it, not
/// from anything the first body had done in between.
pub proof fn later_session_reads_restored_world<W, S, T, E, Q, R, GA, PA, BA, GB, PB, BB>(
    first_getter: GA,
    first_setter: PA,
    first_f: BA,
    first_snapshot: Option<S>,
    first_r: Q,
    second_getter: GB,
    second_setter: PB,
    second_f: BB,
    second_snapshot: Option<T>,
    second_r: R,
    before: W,
    between: W,
    after: W,
) where
    GA: FnOnce(&W) -> Result<Option<S>, E>,
    PA: FnOnce(&mut W, Option<S>),
    BA: FnOnce(&mut W) -> Q,
    GB: FnOnce(&W) -> Result<Option<T>, E>,
    PB: FnOnce(&mut W, Option<T>),
    BB: FnOnce(&mut W) -> R,

    requires
        call_ensures(first_getter, (&before,), Ok::<Option<S>, E>(first_snapshot)),
        exists|b: &mut W, x: &mut W|
            *b == before && call_ensures(first_f, (b,), first_r) && *x == *final(b)
                && call_ensures(first_setter, (x, first_snapshot), ()) && between == *final(x),
        call_ensures(second_getter, (&between,), Ok::<Option<T>, E>(second_snapshot)),
        exists|b: &mut W, x: &mut W|
            *b == between && call_ensures(second_f, (b,), second_r) && *x == *final(b)
                && call_ensures(second_setter, (x, second_snapshot), ()) && after == *final(x),
    ensures
        exists|x: &mut W|
            call_ensures(first_setter, (x, first_snapshot), ()) && call_ensures(
                second_getter,
                (&*final(x),),
                Ok::<Option<T>, E>(second_snapshot),
            ),
{
}

} // verus!
