//! A scope with an action that runs when the scope is left.

use vstd::prelude::*;

verus! {

/// What a scope with an exit action does to the value it is handed.
///
/// `body` gets the value through `b`, holding `before`, and returns `r`; `on_exit` gets it
/// through `x`, holding `between`; the caller finds `after`. The caller of this predicate
/// passes what `b` leaves as `between` and what `x` leaves as `left`.
pub open spec fn scope_ran<T, R, X, B>(
    body: B,
    on_exit: X,
    b: &mut T,
    x: &mut T,
    before: T,
    between: T,
    left: T,
    after: T,
    r: R,
) -> bool where X: FnOnce(&mut T), B: FnOnce(&mut T) -> R {
    &&& *b == before
    &&& call_ensures(body, (b,), r)
    &&& *x == between
    &&& call_ensures(on_exit, (x,), ())
    &&& left == after
}

/// `scopeguard::guard`, with the guard's `DerefMut` and `Drop`: the guard holds `value`
/// together with `on_exit`, `body` works on the value through the guard, and when the
/// guard is dropped `on_exit` is called with the value. The contract speaks of a normal
/// return: `body` ran on the value as it was, `on_exit` ran on what `body` left, and the
/// caller gets back what `on_exit` left. When `body` unwinds the guard is dropped too, so
/// `on_exit` still runs; no contract can say so.
#[verifier::external_body]
pub(crate) fn with_exit_action<T, R, X, B>(value: &mut T, on_exit: X, body: B) -> (r: R) where
    X: FnOnce(&mut T),
    B: FnOnce(&mut T) -> R,

    requires
        forall|v: &mut T| *v == *old(value) ==> call_requires(body, (v,)),
        forall|v: &mut T| call_requires(on_exit, (v,)),
    ensures
        exists|b: &mut T, x: &mut T|
            scope_ran(body, on_exit, b, x, *old(value), *final(b), *final(x), *final(value), r),
{
    let mut guard = scopeguard::guard(value, on_exit);
    body(&mut **guard)
}

} // verus!
