//! Borrowing a value field by field.

use vstd::prelude::*;
use crate::generic::Generic;
use crate::hlist::HCons;
use crate::hlist::HNil;

verus! {

/// A value that can be borrowed as a whole into a value of references to its
/// parts, so that a read-only traversal need not consume it.
pub trait ToRef<'a> {
    /// The borrowed form: for a list of fields, the list of references to them.
    type Output;

    /// The borrowed form of `self`.
    spec fn refs(&'a self) -> Self::Output;

    /// Borrows `self` field by field.
    fn to_ref(&'a self) -> (out: Self::Output)
        ensures
            out == self.refs(),
    ;
}

impl<'a> ToRef<'a> for HNil {
    type Output = HNil;

    open spec fn refs(&'a self) -> HNil {
        HNil
    }

    fn to_ref(&'a self) -> (out: HNil) {
        HNil
    }
}

/// The borrowed form of a list is the list of references to its elements, in
/// the same order.
impl<'a, H: 'a, T: ToRef<'a>> ToRef<'a> for HCons<H, T> {
    type Output = HCons<&'a H, <T as ToRef<'a>>::Output>;

    open spec fn refs(&'a self) -> HCons<&'a H, <T as ToRef<'a>>::Output> {
        HCons { head: &self.head, tail: self.tail.refs() }
    }

    fn to_ref(&'a self) -> (out: HCons<&'a H, <T as ToRef<'a>>::Output>) {
        HCons { head: &self.head, tail: self.tail.to_ref() }
    }
}

/// A record whose borrowed form is the list of references to its fields, in
/// declaration order.
pub trait RefGeneric<'a>: Generic + ToRef<
    'a,
    Output = <<Self as Generic>::Repr as ToRef<'a>>::Output,
> where <Self as Generic>::Repr: ToRef<'a> {
    /// Borrowing the record gives the references to the fields that taking
    /// it apart gives.
    proof fn lemma_refs(&'a self)
        ensures
            self.refs() == self.repr().refs(),
    ;
}

impl<'a> RefGeneric<'a> for HNil {
    proof fn lemma_refs(&'a self) {
    }
}

impl<'a, H: 'a, T: ToRef<'a>> RefGeneric<'a> for HCons<H, T> {
    proof fn lemma_refs(&'a self) {
    }
}

} // verus!
