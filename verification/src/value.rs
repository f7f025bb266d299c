//! The values that computations produce.
//!
//! Both engines run computations over one concrete value type, so that a
//! pending transform or continuation can be stored as plain data inside a
//! computation of the same type it eventually produces.

use vstd::prelude::*;

verus! {

/// A value carried through a computation: a machine integer or a sequence of
/// machine integers.
#[derive(Debug, PartialEq, Eq)]
pub enum Value {
    Int(u64),
    List(Vec<u64>),
}

/// The mathematical model of a [`Value`]: a sequence field abstracts to a
/// `Seq`, an integer field stays as it is.
pub enum ValueView {
    Int(u64),
    List(Seq<u64>),
}

impl View for Value {
    type V = ValueView;

    open spec fn view(&self) -> ValueView {
        match self {
            Value::Int(n) => ValueView::Int(*n),
            Value::List(items) => ValueView::List(items@),
        }
    }
}

} // verus!
