//! Building a full record from a partial one.

use vstd::prelude::*;
use crate::func::Func;
use crate::generic::Generic;
use crate::generic::List;
use crate::hlist::HCons;
use crate::hlist::HNil;
use crate::mapper::HMappable;
use crate::presence::all_fields_present;
use crate::presence::AllPresent;
use crate::to_ref::RefGeneric;
use crate::to_ref::ToRef;

verus! {

/// Takes the value out of a populated optional field. It is not to be called
/// on a missing one.
pub struct UnwrapFields;

impl<T> Func<Option<T>> for UnwrapFields {
    type Output = T;

    open spec fn accepts(self, i: Option<T>) -> bool {
        i is Some
    }

    open spec fn relates(self, i: Option<T>, after: Self, o: T) -> bool {
        i == Some(o)
    }

    fn call(&mut self, i: Option<T>) -> (o: T) {
        i.unwrap()
    }
}

/// A list of optional fields.
pub trait Fillable: HMappable<UnwrapFields> {
    /// Whether every field of the list is populated.
    spec fn complete(self) -> bool;

    /// The list of what the fields hold; it is meant for a complete list.
    spec fn filled(self) -> <Self as HMappable<UnwrapFields>>::Output;

    /// Unwrapping is accepted exactly on a complete list.
    proof fn lemma_unwrap_accepted(self)
        ensures
            self.map_accepted(UnwrapFields) <==> self.complete(),
    ;

    /// The only result of unwrapping is the list of what the fields hold.
    proof fn lemma_unwrap(self, out: <Self as HMappable<UnwrapFields>>::Output)
        ensures
            self.map_related(UnwrapFields, out) <==> self.complete() && out == self.filled(),
    ;
}

impl Fillable for HNil {
    open spec fn complete(self) -> bool {
        true
    }

    open spec fn filled(self) -> HNil {
        HNil
    }

    proof fn lemma_unwrap_accepted(self) {
    }

    proof fn lemma_unwrap(self, out: HNil) {
    }
}

impl<T, Tail: Fillable> Fillable for HCons<Option<T>, Tail> {
    open spec fn complete(self) -> bool {
        self.head is Some && self.tail.complete()
    }

    open spec fn filled(self) -> HCons<T, <Tail as HMappable<UnwrapFields>>::Output> {
        HCons { head: self.head->0, tail: self.tail.filled() }
    }

    proof fn lemma_unwrap_accepted(self) {
        self.tail.lemma_unwrap_accepted();
        if self.head is Some {
            assert(UnwrapFields.relates(self.head, UnwrapFields, self.head->0));
        }
    }

    proof fn lemma_unwrap(self, out: HCons<T, <Tail as HMappable<UnwrapFields>>::Output>) {
        self.tail.lemma_unwrap(out.tail);
        if self.complete() && out == self.filled() {
            assert(UnwrapFields.relates(self.head, UnwrapFields, out.head)
                && self.tail.map_related(UnwrapFields, out.tail));
        }
    }
}

/// A list of optional fields whose borrowed form can be checked for presence.
pub trait FillableRefs<'a, 'f>: Fillable + ToRef<'a> where
    <Self as ToRef<'a>>::Output: AllPresent<'f>,
 {
    /// The list is complete exactly if every one of its borrowed fields is
    /// populated.
    proof fn lemma_refs_present(&'a self)
        ensures
            self.refs().all_present() <==> self.complete(),
    ;
}

impl<'a, 'f> FillableRefs<'a, 'f> for HNil {
    proof fn lemma_refs_present(&'a self) {
    }
}

impl<'a, 'f, T: 'a, Tail: FillableRefs<'a, 'f>> FillableRefs<'a, 'f> for HCons<
    Option<T>,
    Tail,
> where <Tail as ToRef<'a>>::Output: AllPresent<'f> {
    proof fn lemma_refs_present(&'a self) {
        self.tail.lemma_refs_present();
    }
}

/// The presence check on a borrowed partial record says whether the record
/// is complete, and so whether [`build`] builds from it or hands it back.
pub proof fn lemma_present_iff_complete<'a, 'f, P>(partial: &'a P) where
    P: RefGeneric<'a>,
    <P as Generic>::Repr: FillableRefs<'a, 'f>,
    <<P as Generic>::Repr as ToRef<'a>>::Output: AllPresent<'f>,

    ensures
        partial.refs().all_present() <==> partial.repr().complete(),
{
    partial.lemma_refs();
    partial.repr().lemma_refs_present();
}

/// Builds the full record from a partial one.
///
/// A partial record with a missing field comes back unchanged as the error.
/// A complete one is consumed, and the record is made of what its fields
/// hold, in the same order. No field is unwrapped before all were found.
pub fn build<P, R>(partial: P) -> (res: Result<R, P>) where
    R: Generic,
    P: Generic + for<'a> RefGeneric<'a>,
    <P as Generic>::Repr: Fillable<Output = <R as Generic>::Repr> + for<'a, 'f> FillableRefs<
        'a,
        'f,
    >,
    for<'a, 'f> <<P as Generic>::Repr as ToRef<'a>>::Output: AllPresent<'f>,

    ensures
        match res {
            Ok(record) => partial.repr().complete() && record.repr() == partial.repr().filled(),
            Err(p) => !partial.repr().complete() && p == partial,
        },
{
    proof {
        lemma_present_iff_complete(&partial);
        partial.refs().lemma_own_repr();
    }
    if !all_fields_present(partial.to_ref()) {
        return Err(partial);
    }
    let fields = Generic::into(partial);
    proof {
        fields.lemma_unwrap_accepted();
    }
    let filled = fields.map(UnwrapFields);
    proof {
        fields.lemma_unwrap(filled);
        R::lemma_into_from(filled);
    }
    Ok(Generic::from(filled))
}

} // verus!
