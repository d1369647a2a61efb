//! The isomorphism between a record and the list of its fields.
//!
//! A record type implements [`Generic`] once, naming the list type that holds
//! its fields in declaration order. Everything else in this crate works on
//! that list, so no operation has to be written again for each record.

use vstd::prelude::*;
use crate::hlist::HCons;
use crate::hlist::HNil;

verus! {

/// A record that can be taken apart into the list of its fields and put
/// together again.
///
/// `repr` and `from_repr` are the two directions of the isomorphism as
/// mathematical functions; the two lemmas say that they are inverse to each
/// other, so no field is added, dropped or moved by a trip in either
/// direction. `into` and `from` are the same two directions on real values.
pub trait Generic: Sized {
    /// The list type holding the record's fields in declaration order.
    type Repr;

    /// The fields of `self`, in declaration order.
    spec fn repr(self) -> Self::Repr;

    /// The record whose fields are those of `repr`.
    spec fn from_repr(repr: Self::Repr) -> Self;

    /// Taking a record apart and putting it together gives the record back.
    proof fn lemma_from_into(self)
        ensures
            Self::from_repr(self.repr()) == self,
    ;

    /// Putting a list together and taking the record apart gives the list back.
    proof fn lemma_into_from(repr: Self::Repr)
        ensures
            Self::from_repr(repr).repr() == repr,
    ;

    /// Consumes the record and returns its fields in declaration order.
    fn into(self) -> (repr: Self::Repr)
        ensures
            repr == self.repr(),
    ;

    /// Builds the record from its fields in declaration order.
    fn from(repr: Self::Repr) -> (record: Self)
        ensures
            record == Self::from_repr(repr),
    ;
}

/// Takes a record apart into the list of its fields.
pub fn into_generic<T: Generic>(t: T) -> (repr: T::Repr)
    ensures
        repr == t.repr(),
{
    Generic::into(t)
}

/// Puts a record together from the list of its fields.
pub fn from_generic<T: Generic>(repr: T::Repr) -> (record: T)
    ensures
        record == T::from_repr(repr),
        record.repr() == repr,
{
    proof {
        T::lemma_into_from(repr);
    }
    Generic::from(repr)
}

/// Round trip: for every record `r`, taking `r` apart and putting the list
/// together again gives a record equal to `r`, field for field.
pub proof fn lemma_round_trip<T: Generic>(r: T)
    ensures
        T::from_repr(r.repr()) == r,
{
    r.lemma_from_into();
}

/// Round trip in the other direction: every list of fields is the list of
/// exactly the record that is built from it.
pub proof fn lemma_round_trip_repr<T: Generic>(repr: T::Repr)
    ensures
        T::from_repr(repr).repr() == repr,
{
    T::lemma_into_from(repr);
}

/// A list of fields taken as a record: it is its own list of fields.
pub trait List: Generic<Repr = Self> {
    /// Taking a list apart gives the list itself.
    proof fn lemma_own_repr(self)
        ensures
            self.repr() == self,
    ;
}

/// The empty list is a record with no fields; it is its own list of fields.
impl Generic for HNil {
    type Repr = HNil;

    open spec fn repr(self) -> HNil {
        self
    }

    open spec fn from_repr(repr: HNil) -> HNil {
        repr
    }

    proof fn lemma_from_into(self) {
    }

    proof fn lemma_into_from(repr: HNil) {
    }

    fn into(self) -> (repr: HNil) {
        self
    }

    fn from(repr: HNil) -> (record: HNil) {
        repr
    }
}

/// A list is a record whose fields are its elements; it is its own list of
/// fields.
impl<H, T> Generic for HCons<H, T> {
    type Repr = HCons<H, T>;

    open spec fn repr(self) -> HCons<H, T> {
        self
    }

    open spec fn from_repr(repr: HCons<H, T>) -> HCons<H, T> {
        repr
    }

    proof fn lemma_from_into(self) {
    }

    proof fn lemma_into_from(repr: HCons<H, T>) {
    }

    fn into(self) -> (repr: HCons<H, T>) {
        self
    }

    fn from(repr: HCons<H, T>) -> (record: HCons<H, T>) {
        repr
    }
}

impl List for HNil {
    proof fn lemma_own_repr(self) {
    }
}

impl<H, T> List for HCons<H, T> {
    proof fn lemma_own_repr(self) {
    }
}

} // verus!
