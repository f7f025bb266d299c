//! The one-shot functions that computations carry, as plain data.
//!
//! A [`Transform`] stands for a value-to-value function and a [`Plan`] for a
//! value-to-computation continuation.  Keeping them as data lets a computation
//! of either engine own "the rest of the work" as an ordinary field, and lets
//! every use of one be pinned down by a spec function.  An [`Outcome`] models
//! what one step of either engine delivers.

use crate::value::{Value, ValueView};
use vstd::prelude::*;

verus! {

/// A one-shot value transform, the function argument of a `map`.
///
/// Every transform is total: one that does not fit the value's shape (such as
/// `AddConst` on a `List`) leaves the value unchanged, and arithmetic wraps
/// around.
pub enum Transform {
    /// Leave the value as it is.
    Identity,
    /// Add a constant to an integer value, wrapping on overflow.
    AddConst(u64),
    /// Multiply an integer value by a constant, wrapping on overflow.
    MulConst(u64),
    /// Append one item to a sequence value.
    PushItem(u64),
    /// Apply the first transform, then the second.
    Compose(Box<Transform>, Box<Transform>),
}

/// A one-shot continuation, the function argument of a `flat_map`: given the
/// finished value of the source, it builds the next computation.
pub enum Plan {
    /// Build a computation that is immediately done with the transformed value.
    Finish(Transform),
    /// Build a computation that pauses once and is then done with the
    /// transformed value.
    Delay(Transform),
    /// Build the first plan's computation and chain the second plan onto it.
    Chain(Box<Plan>, Box<Plan>),
}

/// What a single step of either engine delivers, in the model: a final value,
/// or the remaining work summarised by its final value and the number of
/// steps it still needs.
pub enum Outcome {
    Done(ValueView),
    More(ValueView, nat),
}

/// The function a [`Transform`] stands for.
pub open spec fn apply_spec(t: Transform, v: ValueView) -> ValueView
    decreases t,
{
    match t {
        Transform::Identity => v,
        Transform::AddConst(c) => match v {
            ValueView::Int(n) => ValueView::Int(vstd::wrapping::u64_specs::wrapping_add(n, c)),
            ValueView::List(items) => ValueView::List(items),
        },
        Transform::MulConst(c) => match v {
            ValueView::Int(n) => ValueView::Int(vstd::wrapping::u64_specs::wrapping_mul(n, c)),
            ValueView::List(items) => ValueView::List(items),
        },
        Transform::PushItem(x) => match v {
            ValueView::Int(n) => ValueView::Int(n),
            ValueView::List(items) => ValueView::List(items.push(x)),
        },
        Transform::Compose(f, g) => apply_spec(*g, apply_spec(*f, v)),
    }
}

/// The final value of the computation a [`Plan`] builds from `v`.
pub open spec fn plan_eval(k: Plan, v: ValueView) -> ValueView
    decreases k,
{
    match k {
        Plan::Finish(t) => apply_spec(t, v),
        Plan::Delay(t) => apply_spec(t, v),
        Plan::Chain(k1, k2) => plan_eval(*k2, plan_eval(*k1, v)),
    }
}

/// How many steps the computation a [`Plan`] builds needs to finish.  The
/// count does not depend on the value the plan is applied to.
pub open spec fn plan_steps(k: Plan) -> nat
    decreases k,
{
    match k {
        Plan::Finish(_) => 1,
        Plan::Delay(_) => 2,
        Plan::Chain(k1, k2) => plan_steps(*k1) + plan_steps(*k2),
    }
}

/// What a map wrapper makes of its source's step outcome: the pending
/// transform is applied to a finished value, and rewrapped around remaining
/// work without costing a step.
pub open spec fn map_out(t: Transform, o: Outcome) -> Outcome {
    match o {
        Outcome::Done(v) => Outcome::Done(apply_spec(t, v)),
        Outcome::More(v, n) => Outcome::More(apply_spec(t, v), n),
    }
}

/// What a flat-map wrapper makes of its source's step outcome: a finished
/// value becomes the plan's computation, still unstepped, and remaining work
/// keeps the plan queued behind it.
pub open spec fn chain_out(k: Plan, o: Outcome) -> Outcome {
    match o {
        Outcome::Done(v) => Outcome::More(plan_eval(k, v), plan_steps(k)),
        Outcome::More(v, n) => Outcome::More(plan_eval(k, v), n + plan_steps(k)),
    }
}

impl Transform {
    /// Run the transform on a value.  This is the one place a pending
    /// transform is ever invoked, and it consumes the transform.
    pub fn apply(self, v: Value) -> (r: Value)
        ensures
            r@ == apply_spec(self, v@),
        decreases self,
    {
        match self {
            Transform::Identity => v,
            Transform::AddConst(c) => match v {
                Value::Int(n) => Value::Int(n.wrapping_add(c)),
                other => other,
            },
            Transform::MulConst(c) => match v {
                Value::Int(n) => Value::Int(n.wrapping_mul(c)),
                other => other,
            },
            Transform::PushItem(x) => match v {
                Value::List(mut items) => {
                    items.push(x);
                    Value::List(items)
                },
                other => other,
            },
            Transform::Compose(f, g) => (*g).apply((*f).apply(v)),
        }
    }
}

} // verus!
