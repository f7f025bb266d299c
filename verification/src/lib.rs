//! A stack-safe sequential computation engine.
//!
//! Chains of transformations and dependent sub-computations are represented as
//! first-class values and executed step by step, so that arbitrarily long
//! chains never grow the native call stack in proportion to the number of
//! steps taken.  Two engines share one vocabulary of values, transforms and
//! continuation plans:
//!
//! * the [`work`] engine, whose step primitive returns either a final value or
//!   the remaining work, leaving the driving loop to the caller; and
//! * the [`cont`] engine, whose run primitive instead hands the outcome to an
//!   end-continuation, so the terminal action can be deferred.
//!
//! The [`func`], [`term`], [`functions`] and [`functors`] modules hold the
//! one-shot function values that sit on top of the engines: currying helpers,
//! composition, and a minimal expression-application evaluator.

pub mod cont;
pub mod func;
pub mod functions;
pub mod functors;
pub mod term;
pub mod transform;
pub mod value;
pub mod work;
