use trampoline::func::Curry;
use trampoline::func::Func;
use trampoline::func::Lift as FuncLift;
use trampoline::functions::{and_then, curry, lift, lift2};
use trampoline::functors::fmap_fun;
use trampoline::term::Lift as TermLift;
use trampoline::term::{Apply, Term};

#[test]
fn term_apply_runs_a_lifted_function() {
    let t = Apply(TermLift(FuncLift(|x: u64| x + 1)), 5u64);
    assert_eq!(t.run(), 6);
}

#[test]
fn term_apply_twice_saturates_a_curried_function() {
    let t = Apply(Apply(TermLift(Curry(|a: u64, b: u64| a * b)), 6u64), 7u64);
    assert_eq!(t.run(), 42);
}

#[test]
fn lift_wraps_a_closure() {
    let f = lift(|x: u64| x * 3);
    assert_eq!(f.call(4), 12);
}

#[test]
fn lift2_takes_its_arguments_as_a_pair() {
    let f = lift2(|a: u64, b: u64| a + b);
    assert_eq!(f.call((2, 3)), 5);
}

#[test]
fn and_then_composes_left_to_right() {
    let f = and_then(|x: u64| x + 1, |x: u64| x * 2);
    assert_eq!(f.call(5), 12);
}

#[test]
fn curry_splits_a_tuple_argument() {
    let f = curry(|ab: (u64, u64)| ab.0 - ab.1);
    let partial = f.call(10);
    assert_eq!(partial.call(4), 6);
}

#[test]
fn fmap_fun_maps_over_the_result() {
    let f = fmap_fun(lift(|x: u64| x + 1), |x: u64| x * 10);
    assert_eq!(f.call(2), 30);
}
