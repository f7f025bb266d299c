//! A minimal expression-application language over [`Func`] values.
//!
//! A [`Term`] is an expression that can be run once to a result: a lifted
//! value, or the application of a term whose result is callable to an
//! argument.

use crate::func::Func;
use vstd::prelude::*;

verus! {

/// An expression runnable exactly once.
pub trait Term: Sized {
    type Output;

    /// When the term may be run.
    spec fn pre(self) -> bool;

    /// What running the term may return.
    spec fn post(self, out: Self::Output) -> bool;

    /// Evaluate the term, consuming it.
    fn run(self) -> (out: Self::Output)
        requires
            self.pre(),
        ensures
            self.post(out),
    ;
}

/// A value as a term: running it returns the value itself.
pub struct Lift<A>(pub A);

impl<A> Term for Lift<A> {
    type Output = A;

    open spec fn pre(self) -> bool {
        true
    }

    open spec fn post(self, out: A) -> bool {
        out == self.0
    }

    fn run(self) -> A {
        self.0
    }
}

/// The application of a term to an argument: running it runs the term and
/// calls its result, a one-shot function value, on the argument.
pub struct Apply<F, A>(pub F, pub A);

impl<F, R, A, B> Term for Apply<F, A> where F: Term<Output = R>, R: Func<A, Output = B> {
    type Output = B;

    open spec fn pre(self) -> bool {
        self.0.pre() && forall|r: R| #[trigger] self.0.post(r) ==> r.pre(self.1)
    }

    open spec fn post(self, out: B) -> bool {
        exists|r: R| #[trigger] self.0.post(r) && r.post(self.1, out)
    }

    fn run(self) -> B {
        (self.0.run()).call(self.1)
    }
}

} // verus!
