//! One-shot function values.
//!
//! [`Func`] is the library's callable abstraction: a value that may be
//! invoked exactly once, consuming itself.  Its contract is carried by two
//! spec functions, so that wrappers and combinators can state exactly what a
//! call requires and what it returns.

use vstd::prelude::*;

verus! {

/// A value callable exactly once with an argument of type `Arg`.
///
/// `pre` says when a call is allowed and `post` relates the argument to the
/// result; `call` consumes the value.
pub trait Func<Arg>: Sized {
    type Output;

    /// When the value may be called with `arg`.
    spec fn pre(self, arg: Arg) -> bool;

    /// What a call with `arg` may return.
    spec fn post(self, arg: Arg, out: Self::Output) -> bool;

    /// Invoke the value, consuming it.
    fn call(self, arg: Arg) -> (out: Self::Output)
        requires
            self.pre(arg),
        ensures
            self.post(arg, out),
    ;
}

/// A plain one-shot closure as a [`Func`].
pub struct Lift<F>(pub F);

impl<F, A, B> Func<A> for Lift<F> where F: FnOnce(A) -> B {
    type Output = B;

    open spec fn pre(self, arg: A) -> bool {
        call_requires(self.0, (arg,))
    }

    open spec fn post(self, arg: A, out: B) -> bool {
        call_ensures(self.0, (arg,), out)
    }

    fn call(self, arg: A) -> B {
        (self.0)(arg)
    }
}

/// A two-argument one-shot closure, curried: calling it with the first
/// argument returns a [`Curry1`] that waits for the second.
pub struct Curry<F>(pub F);

/// A [`Curry`] that has received its first argument.
pub struct Curry1<F, A>(pub F, pub A);

impl<F, A> Func<A> for Curry<F> {
    type Output = Curry1<F, A>;

    open spec fn pre(self, arg: A) -> bool {
        true
    }

    open spec fn post(self, arg: A, out: Curry1<F, A>) -> bool {
        out.0 == self.0 && out.1 == arg
    }

    fn call(self, arg: A) -> Curry1<F, A> {
        Curry1(self.0, arg)
    }
}

impl<F, A, B, C> Func<B> for Curry1<F, A> where F: FnOnce(A, B) -> C {
    type Output = C;

    open spec fn pre(self, arg: B) -> bool {
        call_requires(self.0, (self.1, arg))
    }

    open spec fn post(self, arg: B, out: C) -> bool {
        call_ensures(self.0, (self.1, arg), out)
    }

    fn call(self, arg: B) -> C {
        (self.0)(self.1, arg)
    }
}

} // verus!
