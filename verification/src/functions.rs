//! Wrappers and combinators that turn plain closures into [`Func`] values.
//!
//! These are the helpers that sit on top of the engines: they build the
//! one-shot function values that a computation consumes, and compose them.

use crate::func::Func;
use vstd::prelude::*;

verus! {

/// A one-argument closure as a [`Func`].
pub struct Fun<F> {
    pub f: F,
}

impl<F, A, B> Func<A> for Fun<F> where F: FnOnce(A) -> B {
    type Output = B;

    open spec fn pre(self, arg: A) -> bool {
        call_requires(self.f, (arg,))
    }

    open spec fn post(self, arg: A, out: B) -> bool {
        call_ensures(self.f, (arg,), out)
    }

    fn call(self, arg: A) -> B {
        (self.f)(arg)
    }
}

/// A two-argument closure as a [`Func`] over a pair.
pub struct Fun2<F> {
    pub f: F,
}

impl<F, A, B, C> Func<(A, B)> for Fun2<F> where F: FnOnce(A, B) -> C {
    type Output = C;

    open spec fn pre(self, arg: (A, B)) -> bool {
        call_requires(self.f, (arg.0, arg.1))
    }

    open spec fn post(self, arg: (A, B), out: C) -> bool {
        call_ensures(self.f, (arg.0, arg.1), out)
    }

    fn call(self, arg: (A, B)) -> C {
        (self.f)(arg.0, arg.1)
    }
}

/// Two [`Func`] values run in order: the second is called on the first's
/// result.
pub struct Composed<F, S> {
    pub first: F,
    pub second: S,
}

impl<A, F, S> Func<A> for Composed<F, S> where F: Func<A>, S: Func<F::Output> {
    type Output = S::Output;

    open spec fn pre(self, arg: A) -> bool {
        self.first.pre(arg) && forall|m: F::Output| #[trigger]
            self.first.post(arg, m) ==> self.second.pre(m)
    }

    open spec fn post(self, arg: A, out: S::Output) -> bool {
        exists|m: F::Output| #[trigger] self.first.post(arg, m) && self.second.post(m, out)
    }

    fn call(self, arg: A) -> S::Output {
        let mid = self.first.call(arg);
        self.second.call(mid)
    }
}

/// A tuple-argument closure, curried: calling the result with the first
/// argument returns a [`Curried1`] that waits for the second.
pub struct Curried<F> {
    pub f: F,
}

/// A [`Curried`] that has received its first argument.
pub struct Curried1<F, A> {
    pub f: F,
    pub a: A,
}

impl<F, A> Func<A> for Curried<F> {
    type Output = Curried1<F, A>;

    open spec fn pre(self, arg: A) -> bool {
        true
    }

    open spec fn post(self, arg: A, out: Curried1<F, A>) -> bool {
        out.f == self.f && out.a == arg
    }

    fn call(self, arg: A) -> Curried1<F, A> {
        Curried1 { f: self.f, a: arg }
    }
}

impl<F, A, B, C> Func<B> for Curried1<F, A> where F: FnOnce((A, B)) -> C {
    type Output = C;

    open spec fn pre(self, arg: B) -> bool {
        call_requires(self.f, ((self.a, arg),))
    }

    open spec fn post(self, arg: B, out: C) -> bool {
        call_ensures(self.f, ((self.a, arg),), out)
    }

    fn call(self, arg: B) -> C {
        (self.f)((self.a, arg))
    }
}

/// Wrap a one-argument closure as a [`Func`] value.
pub fn lift<F>(f: F) -> (r: Fun<F>)
    ensures
        r.f == f,
{
    Fun { f }
}

/// Wrap a two-argument closure as a [`Func`] value over a pair.
pub fn lift2<F>(f: F) -> (r: Fun2<F>)
    ensures
        r.f == f,
{
    Fun2 { f }
}

/// Compose two closures: the returned value calls `f`, then `g` on its
/// result.
pub fn and_then<F, G>(f: F, g: G) -> (r: Composed<Fun<F>, Fun<G>>)
    ensures
        r.first.f == f,
        r.second.f == g,
{
    Composed { first: Fun { f }, second: Fun { f: g } }
}

/// Curry a tuple-argument closure: the result takes the two components one
/// at a time.
pub fn curry<F>(f: F) -> (r: Curried<F>)
    ensures
        r.f == f,
{
    Curried { f }
}

} // verus!
