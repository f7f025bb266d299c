//! Mapping over function values.

use crate::func::Func;
use crate::functions::{Composed, Fun};
use vstd::prelude::*;

verus! {

/// Map a closure over the result of a [`Func`] value: the returned value
/// calls `fa`, then `f` on its result.
pub fn fmap_fun<FA, F>(fa: FA, f: F) -> (r: Composed<FA, Fun<F>>)
    ensures
        r.first == fa,
        r.second.f == f,
{
    Composed { first: fa, second: Fun { f } }
}

} // verus!
