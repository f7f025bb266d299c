//! The direct-result trampoline.
//!
//! A [`Work`] computation is stepped by [`Work::run`], which consumes it and
//! returns a [`WorkResult`]: either the final value or the remaining work.
//! The caller owns the driving loop.  Each step performs exactly one
//! delegation into the innermost pending computation: the contract of `run`
//! says that every step lowers the remaining step count by exactly one and
//! never changes the final value.

use crate::transform::{apply_spec, chain_out, map_out, plan_eval, plan_steps, Outcome, Plan,
    Transform};
use crate::value::{Value, ValueView};
use vstd::prelude::*;

verus! {

/// What one step of a computation returns: a terminal value, or the remaining
/// work as a first-class computation.
pub enum WorkResult {
    Done(Value),
    More(Work),
}

/// A suspended computation.  It is a linear resource: stepping it consumes
/// it, and a computation that returned `Done` cannot be stepped again.
pub struct Work(WorkImpl);

/// The step-implementations a computation can own.
///
/// `Emit` and `Pause` are the primitive leaves; `Mapped` and `Chained` are
/// the wrappers that `map` and `flat_map` build around a source computation
/// and its pending one-shot function.
pub enum WorkImpl {
    /// Finish immediately with the value.
    Emit(Value),
    /// Yield the inner computation once as remaining work before running it.
    Pause(Box<WorkImpl>),
    /// Run the source, then apply the pending transform to its value.
    Mapped(Box<WorkImpl>, Transform),
    /// Run the source, then let the plan build the next computation from its
    /// value.
    Chained(Box<WorkImpl>, Plan),
}

/// The final value a computation reaches when stepped to completion.
pub open spec fn eval(w: WorkImpl) -> ValueView
    decreases w,
{
    match w {
        WorkImpl::Emit(v) => v@,
        WorkImpl::Pause(inner) => eval(*inner),
        WorkImpl::Mapped(inner, t) => apply_spec(t, eval(*inner)),
        WorkImpl::Chained(inner, k) => plan_eval(k, eval(*inner)),
    }
}

/// How many `run` calls the computation needs to reach `Done`.
pub open spec fn steps(w: WorkImpl) -> nat
    decreases w,
{
    match w {
        WorkImpl::Emit(_) => 1,
        WorkImpl::Pause(inner) => 1 + steps(*inner),
        WorkImpl::Mapped(inner, _) => steps(*inner),
        WorkImpl::Chained(inner, k) => steps(*inner) + plan_steps(k),
    }
}

/// What a single step of the computation delivers.
pub open spec fn step_outcome(w: WorkImpl) -> Outcome
    decreases w,
{
    match w {
        WorkImpl::Emit(v) => Outcome::Done(v@),
        WorkImpl::Pause(inner) => Outcome::More(eval(*inner), steps(*inner)),
        WorkImpl::Mapped(inner, t) => map_out(t, step_outcome(*inner)),
        WorkImpl::Chained(inner, k) => chain_out(k, step_outcome(*inner)),
    }
}

/// Whether an executed step result realises a modelled outcome.
pub open spec fn step_matches(r: WorkResult, o: Outcome) -> bool {
    match (r, o) {
        (WorkResult::Done(v), Outcome::Done(m)) => v@ == m,
        (WorkResult::More(w), Outcome::More(m, n)) => eval(w.rep()) == m && steps(w.rep()) == n,
        _ => false,
    }
}

/// One step delivers `Done` exactly on a one-step computation, and otherwise
/// remaining work that finishes with the same value after exactly one step
/// fewer.
pub proof fn lemma_step_outcome(w: WorkImpl)
    ensures
        step_outcome(w) matches Outcome::Done(v) ==> v == eval(w) && steps(w) == 1,
        step_outcome(w) matches Outcome::More(v, n) ==> v == eval(w) && steps(w) == n + 1,
    decreases w,
{
    match w {
        WorkImpl::Emit(_) => {},
        WorkImpl::Pause(_) => {},
        WorkImpl::Mapped(inner, _) => {
            lemma_step_outcome(*inner);
        },
        WorkImpl::Chained(inner, _) => {
            lemma_step_outcome(*inner);
        },
    }
}

impl WorkImpl {
    /// Perform one step: delegate once into the innermost pending
    /// computation, applying or rewrapping the pending one-shot functions on
    /// the way out.
    pub fn run(self) -> (r: WorkResult)
        ensures
            step_matches(r, step_outcome(self)),
            r matches WorkResult::Done(v) ==> v@ == eval(self) && steps(self) == 1,
            r matches WorkResult::More(w) ==> eval(w.rep()) == eval(self) && steps(w.rep()) + 1
                == steps(self),
        decreases self,
    {
        proof {
            lemma_step_outcome(self);
        }
        match self {
            WorkImpl::Emit(v) => WorkResult::Done(v),
            WorkImpl::Pause(inner) => WorkResult::More(Work(*inner)),
            WorkImpl::Mapped(inner, t) => match (*inner).run() {
                WorkResult::Done(a) => WorkResult::Done(t.apply(a)),
                WorkResult::More(w) => WorkResult::More(Work(WorkImpl::Mapped(Box::new(w.0), t))),
            },
            WorkImpl::Chained(inner, k) => match (*inner).run() {
                WorkResult::Done(a) => WorkResult::More(plan_into_work(k, a)),
                WorkResult::More(w) => WorkResult::More(Work(WorkImpl::Chained(Box::new(w.0), k))),
            },
        }
    }
}

/// Build the computation a plan stands for, from the finished value of its
/// source.  This is the one place a pending plan is ever invoked.
fn plan_into_work(k: Plan, a: Value) -> (w: Work)
    ensures
        eval(w.rep()) == plan_eval(k, a@),
        steps(w.rep()) == plan_steps(k),
    decreases k,
{
    proof {
        reveal_with_fuel(eval, 3);
        reveal_with_fuel(steps, 3);
    }
    match k {
        Plan::Finish(t) => Work(WorkImpl::Emit(t.apply(a))),
        Plan::Delay(t) => Work(WorkImpl::Pause(Box::new(WorkImpl::Emit(t.apply(a))))),
        Plan::Chain(k1, k2) => {
            let w1 = plan_into_work(*k1, a);
            Work(WorkImpl::Chained(Box::new(w1.0), *k2))
        },
    }
}

impl Work {
    /// The step-implementation this handle owns.
    pub closed spec fn rep(self) -> WorkImpl {
        self.0
    }

    /// Wrap a step-implementation as a computation.
    pub fn lift(work_impl: WorkImpl) -> (w: Work)
        ensures
            w.rep() == work_impl,
    {
        Work(work_impl)
    }

    /// Build the computation that, once fully stepped, yields `fun` applied
    /// to this computation's eventual value.  Nothing runs yet: `fun` is
    /// invoked exactly once, on the step that finishes the source.
    pub fn map(self, fun: Transform) -> (w: Work)
        ensures
            w.rep() == (WorkImpl::Mapped(Box::new(self.rep()), fun)),
            eval(w.rep()) == apply_spec(fun, eval(self.rep())),
            steps(w.rep()) == steps(self.rep()),
    {
        Work(WorkImpl::Mapped(Box::new(self.0), fun))
    }

    /// Build the computation that, once this one finishes, lets `fun` build
    /// and chain in the next computation from its value.  Nothing runs yet:
    /// `fun` is invoked exactly once, on the step after the source finishes.
    pub fn flat_map(self, fun: Plan) -> (w: Work)
        ensures
            w.rep() == (WorkImpl::Chained(Box::new(self.rep()), fun)),
            eval(w.rep()) == plan_eval(fun, eval(self.rep())),
            steps(w.rep()) == steps(self.rep()) + plan_steps(fun),
    {
        Work(WorkImpl::Chained(Box::new(self.0), fun))
    }

    /// Perform one step of the computation, consuming it.
    pub fn run(self) -> (r: WorkResult)
        ensures
            step_matches(r, step_outcome(self.rep())),
            r matches WorkResult::Done(v) ==> v@ == eval(self.rep()) && steps(self.rep()) == 1,
            r matches WorkResult::More(w) ==> eval(w.rep()) == eval(self.rep()) && steps(w.rep())
                + 1 == steps(self.rep()),
    {
        self.0.run()
    }

    /// The driving loop of the engine: step the computation until it is done
    /// and return its final value.  Stack depth no longer grows with the
    /// number of steps taken, which is what the step protocol is for.
    pub fn run_to_done(self) -> (v: Value)
        ensures
            v@ == eval(self.rep()),
    {
        let mut w = self;
        loop
            invariant
                eval(w.rep()) == eval(self.rep()),
            decreases steps(w.rep()),
        {
            match w.run() {
                WorkResult::Done(v) => {
                    return v;
                },
                WorkResult::More(next) => {
                    w = next;
                },
            }
        }
    }
}

/// Mapping the identity transform changes neither a computation's final
/// value nor its step count.
pub proof fn lemma_map_identity(w: WorkImpl)
    ensures
        eval(WorkImpl::Mapped(Box::new(w), Transform::Identity)) == eval(w),
        steps(WorkImpl::Mapped(Box::new(w), Transform::Identity)) == steps(w),
{
}

/// Mapping `f` and then `g` yields the same final value, in the same number
/// of steps, as mapping their composition once.
pub proof fn lemma_map_composition(w: WorkImpl, f: Transform, g: Transform)
    ensures
        eval(WorkImpl::Mapped(Box::new(WorkImpl::Mapped(Box::new(w), f)), g)) == eval(
            WorkImpl::Mapped(Box::new(w), Transform::Compose(Box::new(f), Box::new(g))),
        ),
        steps(WorkImpl::Mapped(Box::new(WorkImpl::Mapped(Box::new(w), f)), g)) == steps(
            WorkImpl::Mapped(Box::new(w), Transform::Compose(Box::new(f), Box::new(g))),
        ),
{
    reveal_with_fuel(eval, 3);
    reveal_with_fuel(steps, 3);
    reveal_with_fuel(apply_spec, 2);
}

/// Flat-map is associative: chaining `f` and then `g` yields the same final
/// value, in the same number of steps, as chaining the single plan that runs
/// `f` and chains `g` onto its computation.
pub proof fn lemma_flat_map_associative(w: WorkImpl, f: Plan, g: Plan)
    ensures
        eval(WorkImpl::Chained(Box::new(WorkImpl::Chained(Box::new(w), f)), g)) == eval(
            WorkImpl::Chained(Box::new(w), Plan::Chain(Box::new(f), Box::new(g))),
        ),
        steps(WorkImpl::Chained(Box::new(WorkImpl::Chained(Box::new(w), f)), g)) == steps(
            WorkImpl::Chained(Box::new(w), Plan::Chain(Box::new(f), Box::new(g))),
        ),
{
    reveal_with_fuel(eval, 3);
    reveal_with_fuel(steps, 3);
    reveal_with_fuel(plan_eval, 2);
    reveal_with_fuel(plan_steps, 2);
}

} // verus!
