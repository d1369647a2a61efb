//! Heterogeneous lists: the ordered, statically typed product that stands for
//! a record's fields in declaration order.
//!
//! A list is either [`HNil`] or an [`HCons`] of one field and the list of the
//! fields after it, so a record with fields `a: A, b: B` is represented by
//! `HCons<A, HCons<B, HNil>>`. Which of the two cases a list is in is part of
//! its type; nothing is tagged at run time.

use vstd::prelude::*;

verus! {

/// The empty list.
#[derive(Clone, Copy, Debug, PartialEq, Eq)]
pub struct HNil;

/// A non-empty list: one field, then the list of the fields after it.
#[derive(Clone, Copy, Debug, PartialEq, Eq)]
pub struct HCons<H, T> {
    pub head: H,
    pub tail: T,
}

/// Builds a cons cell from its head and its tail.
pub fn h_cons<H, T>(head: H, tail: T) -> (cell: HCons<H, T>)
    ensures
        cell == (HCons { head, tail }),
{
    HCons { head, tail }
}

} // verus!
