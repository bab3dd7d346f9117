//! Small helpers.

use std::convert::Infallible;
use vstd::prelude::*;

verus! {

/// Whether `a` and `b` are one value.
pub open spec fn same<T>(a: T, b: T) -> bool {
    a == b
}

/// Eliminates a value of `core::convert::Infallible`, the enum of std without
/// variants. Trusted: no such value exists, so nothing is ever returned, and
/// whatever is said of the result holds: it is every value of `T` at once.
#[verifier::external_body]
fn absurd<T>(x: Infallible) -> (res: T)
    ensures
        forall|y: T| #[trigger] same(res, y),
{
    match x {}
}

/// Marks a code path that cannot be reached, for the path holds a value that
/// cannot exist. A call never returns; its result, which there never is, can
/// stand for any value of `T`.
#[inline(always)]
pub fn unreachable<T>(x: Infallible) -> (res: T)
    ensures
        forall|y: T| #[trigger] same(res, y),
{
    absurd(x)
}

} // verus!
