//! The continuation-passing trampoline.
//!
//! Structurally the twin of the [`crate::work`] engine, with an inverted step
//! protocol: [`Cont::run`] never returns the outcome.  It is given an
//! end-continuation, [`End`], and the one step it performs ends by invoking
//! that continuation with a [`ContResult`] — either the final value or the
//! remaining work.  The terminal action can therefore be deferred to whoever
//! holds the end-continuation; the engine itself never resumes remaining
//! work.

use crate::transform::{apply_spec, chain_out, map_out, plan_eval, plan_steps, Outcome, Plan,
    Transform};
use crate::value::{Value, ValueView};
use vstd::prelude::*;

verus! {

/// What one step of a computation delivers to the end-continuation: a
/// terminal value, or the remaining work as a first-class computation.
pub enum ContResult {
    Done(Value),
    More(Cont),
}

/// A suspended computation.  It is a linear resource: running it consumes
/// it, together with the end-continuation it is given.
pub struct Cont(ContImpl);

/// The step-implementations a computation can own; the same shapes as the
/// direct-result engine's.
pub enum ContImpl {
    /// Finish immediately with the value.
    Emit(Value),
    /// Yield the inner computation once as remaining work before running it.
    Pause(Box<ContImpl>),
    /// Run the source, then apply the pending transform to its outcome.
    Mapped(Box<ContImpl>, Transform),
    /// Run the source, then let the plan build the next computation from its
    /// outcome.
    Chained(Box<ContImpl>, Plan),
}

/// The work an end-continuation still does to an outcome before the sink
/// sees it.  Running a wrapped computation pushes one frame per wrapper; the
/// frames fire in order once the innermost computation delivers its result.
pub enum Frame {
    /// Hand the outcome to the sink as it is.
    Deliver,
    /// Apply the pending transform, then continue with the rest.
    Mapping(Transform, Box<Frame>),
    /// Let the pending plan build the next computation, then continue with
    /// the rest.
    Chaining(Plan, Box<Frame>),
}

/// The end-continuation: what to do with the eventual outcome of a run.  It
/// is consumed exactly once, by the one run call that reaches an outcome for
/// the chain it was attached to.
pub struct End<F> {
    sink: F,
    frames: Frame,
}

/// The final value a computation reaches when run to completion.
pub open spec fn eval(c: ContImpl) -> ValueView
    decreases c,
{
    match c {
        ContImpl::Emit(v) => v@,
        ContImpl::Pause(inner) => eval(*inner),
        ContImpl::Mapped(inner, t) => apply_spec(t, eval(*inner)),
        ContImpl::Chained(inner, k) => plan_eval(k, eval(*inner)),
    }
}

/// How many run calls the computation needs to reach `Done`.
pub open spec fn steps(c: ContImpl) -> nat
    decreases c,
{
    match c {
        ContImpl::Emit(_) => 1,
        ContImpl::Pause(inner) => 1 + steps(*inner),
        ContImpl::Mapped(inner, _) => steps(*inner),
        ContImpl::Chained(inner, k) => steps(*inner) + plan_steps(k),
    }
}

/// What a single run of the computation delivers to its end-continuation's
/// sink, before any already-pending frames.
pub open spec fn step_outcome(c: ContImpl) -> Outcome
    decreases c,
{
    match c {
        ContImpl::Emit(v) => Outcome::Done(v@),
        ContImpl::Pause(inner) => Outcome::More(eval(*inner), steps(*inner)),
        ContImpl::Mapped(inner, t) => map_out(t, step_outcome(*inner)),
        ContImpl::Chained(inner, k) => chain_out(k, step_outcome(*inner)),
    }
}

/// The outcome a delivered result realises.
pub open spec fn outcome_of(r: ContResult) -> Outcome {
    match r {
        ContResult::Done(v) => Outcome::Done(v@),
        ContResult::More(c) => Outcome::More(eval(c.rep()), steps(c.rep())),
    }
}

/// What pending frames make of an outcome on its way to the sink.
pub open spec fn frames_out(fs: Frame, o: Outcome) -> Outcome
    decreases fs,
{
    match fs {
        Frame::Deliver => o,
        Frame::Mapping(t, rest) => frames_out(*rest, map_out(t, o)),
        Frame::Chaining(k, rest) => frames_out(*rest, chain_out(k, o)),
    }
}

/// One step delivers `Done` exactly on a one-step computation, and otherwise
/// remaining work that finishes with the same value after exactly one step
/// fewer.
pub proof fn lemma_step_outcome(c: ContImpl)
    ensures
        step_outcome(c) matches Outcome::Done(v) ==> v == eval(c) && steps(c) == 1,
        step_outcome(c) matches Outcome::More(v, n) ==> v == eval(c) && steps(c) == n + 1,
    decreases c,
{
    match c {
        ContImpl::Emit(_) => {},
        ContImpl::Pause(_) => {},
        ContImpl::Mapped(inner, _) => {
            lemma_step_outcome(*inner);
        },
        ContImpl::Chained(inner, _) => {
            lemma_step_outcome(*inner);
        },
    }
}

impl<F: FnOnce(ContResult)> End<F> {
    /// Wrap a sink as an end-continuation with nothing pending.  The sink
    /// must accept whatever result a run eventually delivers.
    pub fn new(sink: F) -> (e: End<F>)
        ensures
            e.sink() == sink,
            e.pending() == Frame::Deliver,
    {
        End { sink, frames: Frame::Deliver }
    }

    /// The callback that finally receives the outcome.
    pub closed spec fn sink(self) -> F {
        self.sink
    }

    /// The frames still pending in front of the sink.
    pub closed spec fn pending(self) -> Frame {
        self.frames
    }

    /// Run the pending frames on a delivered result, then invoke the sink
    /// exactly once with what they make of it.
    pub fn run(self, result: ContResult)
        requires
            forall|r: ContResult|
                outcome_of(r) == frames_out(self.pending(), outcome_of(result))
                    ==> call_requires(self.sink(), (r,)),
        ensures
            exists|r: ContResult|
                outcome_of(r) == frames_out(self.pending(), outcome_of(result))
                    && call_ensures(self.sink(), (r,), ()),
        decreases self.pending(),
    {
        let End { sink, frames } = self;
        match frames {
            Frame::Deliver => (sink)(result),
            Frame::Mapping(t, rest) => match result {
                ContResult::Done(a) => {
                    let next = End { sink, frames: *rest };
                    next.run(ContResult::Done(t.apply(a)))
                },
                ContResult::More(c) => {
                    let next = End { sink, frames: *rest };
                    next.run(ContResult::More(Cont(ContImpl::Mapped(Box::new(c.0), t))))
                },
            },
            Frame::Chaining(k, rest) => match result {
                ContResult::Done(a) => {
                    let next = End { sink, frames: *rest };
                    next.run(ContResult::More(plan_into_cont(k, a)))
                },
                ContResult::More(c) => {
                    let next = End { sink, frames: *rest };
                    next.run(ContResult::More(Cont(ContImpl::Chained(Box::new(c.0), k))))
                },
            },
        }
    }
}

/// Build the computation a plan stands for, from the finished value of its
/// source.  This is the one place a pending plan is ever invoked.
fn plan_into_cont(k: Plan, a: Value) -> (c: Cont)
    ensures
        eval(c.rep()) == plan_eval(k, a@),
        steps(c.rep()) == plan_steps(k),
    decreases k,
{
    proof {
        reveal_with_fuel(eval, 3);
        reveal_with_fuel(steps, 3);
    }
    match k {
        Plan::Finish(t) => Cont(ContImpl::Emit(t.apply(a))),
        Plan::Delay(t) => Cont(ContImpl::Pause(Box::new(ContImpl::Emit(t.apply(a))))),
        Plan::Chain(k1, k2) => {
            let c1 = plan_into_cont(*k1, a);
            Cont(ContImpl::Chained(Box::new(c1.0), *k2))
        },
    }
}

impl ContImpl {
    /// Perform one step: descend once into the innermost pending
    /// computation, pushing each pending one-shot function as a frame of the
    /// end-continuation on the way in.
    pub fn run<F: FnOnce(ContResult)>(self, end: End<F>)
        requires
            forall|r: ContResult|
                outcome_of(r) == frames_out(end.pending(), step_outcome(self))
                    ==> call_requires(end.sink(), (r,)),
        ensures
            exists|r: ContResult|
                outcome_of(r) == frames_out(end.pending(), step_outcome(self))
                    && call_ensures(end.sink(), (r,), ()),
        decreases self,
    {
        match self {
            ContImpl::Emit(v) => end.run(ContResult::Done(v)),
            ContImpl::Pause(inner) => end.run(ContResult::More(Cont(*inner))),
            ContImpl::Mapped(inner, t) => {
                let End { sink, frames } = end;
                (*inner).run(End { sink, frames: Frame::Mapping(t, Box::new(frames)) })
            },
            ContImpl::Chained(inner, k) => {
                let End { sink, frames } = end;
                (*inner).run(End { sink, frames: Frame::Chaining(k, Box::new(frames)) })
            },
        }
    }
}

impl Cont {
    /// The step-implementation this handle owns.
    pub closed spec fn rep(self) -> ContImpl {
        self.0
    }

    /// Wrap a step-implementation as a computation.
    pub fn lift(cont: ContImpl) -> (c: Cont)
        ensures
            c.rep() == cont,
    {
        Cont(cont)
    }

    /// Build the computation that eventually delivers `fun` applied to this
    /// computation's eventual value.  Nothing runs yet: `fun` is invoked
    /// exactly once, on the run that finishes the source.
    pub fn map(self, fun: Transform) -> (c: Cont)
        ensures
            c.rep() == (ContImpl::Mapped(Box::new(self.rep()), fun)),
            eval(c.rep()) == apply_spec(fun, eval(self.rep())),
            steps(c.rep()) == steps(self.rep()),
    {
        Cont(ContImpl::Mapped(Box::new(self.0), fun))
    }

    /// Build the computation that, once this one finishes, lets `fun` build
    /// and chain in the next computation from its value.  Nothing runs yet:
    /// `fun` is invoked exactly once, on the run after the source finishes.
    pub fn flat_map(self, fun: Plan) -> (c: Cont)
        ensures
            c.rep() == (ContImpl::Chained(Box::new(self.rep()), fun)),
            eval(c.rep()) == plan_eval(fun, eval(self.rep())),
            steps(c.rep()) == steps(self.rep()) + plan_steps(fun),
    {
        Cont(ContImpl::Chained(Box::new(self.0), fun))
    }

    /// Perform one step of the computation, consuming it and the
    /// end-continuation.  There is no return value: the run ends by invoking
    /// the end-continuation's sink exactly once, with either the final value
    /// or the remaining work, which the engine never resumes on its own.
    pub fn run<F: FnOnce(ContResult)>(self, end: End<F>)
        requires
            forall|r: ContResult|
                outcome_of(r) == frames_out(end.pending(), step_outcome(self.rep()))
                    ==> call_requires(end.sink(), (r,)),
        ensures
            exists|r: ContResult|
                outcome_of(r) == frames_out(end.pending(), step_outcome(self.rep()))
                    && call_ensures(end.sink(), (r,), ()),
    {
        self.0.run(end)
    }
}

/// Mapping the identity transform changes neither a computation's final
/// value nor its step count.
pub proof fn lemma_map_identity(c: ContImpl)
    ensures
        eval(ContImpl::Mapped(Box::new(c), Transform::Identity)) == eval(c),
        steps(ContImpl::Mapped(Box::new(c), Transform::Identity)) == steps(c),
{
}

/// Mapping `f` and then `g` yields the same final value, in the same number
/// of steps, as mapping their composition once.
pub proof fn lemma_map_composition(c: ContImpl, f: Transform, g: Transform)
    ensures
        eval(ContImpl::Mapped(Box::new(ContImpl::Mapped(Box::new(c), f)), g)) == eval(
            ContImpl::Mapped(Box::new(c), Transform::Compose(Box::new(f), Box::new(g))),
        ),
        steps(ContImpl::Mapped(Box::new(ContImpl::Mapped(Box::new(c), f)), g)) == steps(
            ContImpl::Mapped(Box::new(c), Transform::Compose(Box::new(f), Box::new(g))),
        ),
{
    reveal_with_fuel(eval, 3);
    reveal_with_fuel(steps, 3);
    reveal_with_fuel(apply_spec, 2);
}

/// Flat-map is associative: chaining `f` and then `g` yields the same final
/// value, in the same number of steps, as chaining the single plan that runs
/// `f` and chains `g` onto its computation.
pub proof fn lemma_flat_map_associative(c: ContImpl, f: Plan, g: Plan)
    ensures
        eval(ContImpl::Chained(Box::new(ContImpl::Chained(Box::new(c), f)), g)) == eval(
            ContImpl::Chained(Box::new(c), Plan::Chain(Box::new(f), Box::new(g))),
        ),
        steps(ContImpl::Chained(Box::new(ContImpl::Chained(Box::new(c), f)), g)) == steps(
            ContImpl::Chained(Box::new(c), Plan::Chain(Box::new(f), Box::new(g))),
        ),
{
    reveal_with_fuel(eval, 3);
    reveal_with_fuel(steps, 3);
    reveal_with_fuel(plan_eval, 2);
    reveal_with_fuel(plan_steps, 2);
}

} // verus!
