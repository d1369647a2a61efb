//! Projecting a record of buffers into views and into shared handles.

use vstd::prelude::*;
use crate::buffer::Buffer;
use crate::func::Func;
use crate::generic::Generic;
use crate::hlist::HCons;
use crate::hlist::HNil;
use crate::mapper::HMappable;
use crate::to_ref::RefGeneric;
use crate::to_ref::ToRef;

verus! {

/// Borrows a buffer field as a read-only view with the same contents.
pub struct FieldViews;

impl<'a, B: Buffer> Func<&'a B> for FieldViews {
    type Output = <B as Buffer>::Borrowed<'a>;

    open spec fn accepts(self, i: &'a B) -> bool {
        true
    }

    open spec fn relates(self, i: &'a B, after: Self, o: <B as Buffer>::Borrowed<'a>) -> bool {
        o@ == i@
    }

    fn call(&mut self, i: &'a B) -> (o: <B as Buffer>::Borrowed<'a>) {
        i.as_view()
    }
}

/// Moves a buffer field into a shared handle with the same contents.
pub struct FieldArcs;

impl<B: Buffer> Func<B> for FieldArcs {
    type Output = <B as Buffer>::Shared;

    open spec fn accepts(self, i: B) -> bool {
        true
    }

    open spec fn relates(self, i: B, after: Self, o: <B as Buffer>::Shared) -> bool {
        o@ == i@
    }

    fn call(&mut self, i: B) -> (o: <B as Buffer>::Shared) {
        i.into_shared()
    }
}

/// A list of references to buffers.
pub trait BufferRefs<'a>: HMappable<FieldViews> {
    /// Whether `views` holds, position by position, a view with the contents
    /// of the buffer at that position.
    spec fn viewed_by(self, views: <Self as HMappable<FieldViews>>::Output) -> bool;

    /// Taking views is never refused.
    proof fn lemma_views_accepted(self)
        ensures
            self.map_accepted(FieldViews),
    ;

    /// The results of taking views are the lists of views with the buffers'
    /// contents.
    proof fn lemma_views(self, views: <Self as HMappable<FieldViews>>::Output)
        ensures
            self.map_related(FieldViews, views) <==> self.viewed_by(views),
    ;
}

impl<'a> BufferRefs<'a> for HNil {
    open spec fn viewed_by(self, views: HNil) -> bool {
        true
    }

    proof fn lemma_views_accepted(self) {
    }

    proof fn lemma_views(self, views: HNil) {
    }
}

impl<'a, B: Buffer, Tail: BufferRefs<'a>> BufferRefs<'a> for HCons<&'a B, Tail> {
    open spec fn viewed_by(
        self,
        views: HCons<<B as Buffer>::Borrowed<'a>, <Tail as HMappable<FieldViews>>::Output>,
    ) -> bool {
        views.head@ == self.head@ && self.tail.viewed_by(views.tail)
    }

    proof fn lemma_views_accepted(self) {
        self.tail.lemma_views_accepted();
    }

    proof fn lemma_views(
        self,
        views: HCons<<B as Buffer>::Borrowed<'a>, <Tail as HMappable<FieldViews>>::Output>,
    ) {
        self.tail.lemma_views(views.tail);
        if self.viewed_by(views) {
            assert(FieldViews.relates(self.head, FieldViews, views.head)
                && self.tail.map_related(FieldViews, views.tail));
        }
    }
}

/// A list of buffers.
pub trait Buffers: HMappable<FieldArcs> {
    /// Whether `arcs` holds, position by position, a shared handle with the
    /// contents of the buffer at that position.
    spec fn shared_as(self, arcs: <Self as HMappable<FieldArcs>>::Output) -> bool;

    /// Sharing is never refused.
    proof fn lemma_arcs_accepted(self)
        ensures
            self.map_accepted(FieldArcs),
    ;

    /// The results of sharing are the lists of shared handles with the
    /// buffers' contents.
    proof fn lemma_arcs(self, arcs: <Self as HMappable<FieldArcs>>::Output)
        ensures
            self.map_related(FieldArcs, arcs) <==> self.shared_as(arcs),
    ;
}

impl Buffers for HNil {
    open spec fn shared_as(self, arcs: HNil) -> bool {
        true
    }

    proof fn lemma_arcs_accepted(self) {
    }

    proof fn lemma_arcs(self, arcs: HNil) {
    }
}

impl<B: Buffer, Tail: Buffers> Buffers for HCons<B, Tail> {
    open spec fn shared_as(
        self,
        arcs: HCons<<B as Buffer>::Shared, <Tail as HMappable<FieldArcs>>::Output>,
    ) -> bool {
        arcs.head@ == self.head@ && self.tail.shared_as(arcs.tail)
    }

    proof fn lemma_arcs_accepted(self) {
        self.tail.lemma_arcs_accepted();
    }

    proof fn lemma_arcs(
        self,
        arcs: HCons<<B as Buffer>::Shared, <Tail as HMappable<FieldArcs>>::Output>,
    ) {
        self.tail.lemma_arcs(arcs.tail);
        if self.shared_as(arcs) {
            assert(FieldArcs.relates(self.head, FieldArcs, arcs.head)
                && self.tail.map_related(FieldArcs, arcs.tail));
        }
    }
}

/// Borrows every field of a record as a read-only view.
///
/// The record is left as it is. The result has the record's fields in the
/// record's order, each as a view with the contents that the field has at
/// the time of the call, and it cannot outlive the borrow of the record.
pub fn views<'a, R, V>(record: &'a R) -> (v: V) where
    R: RefGeneric<'a>,
    <R as Generic>::Repr: ToRef<'a>,
    <<R as Generic>::Repr as ToRef<'a>>::Output: BufferRefs<'a, Output = <V as Generic>::Repr>,
    V: Generic,

    ensures
        record.repr().refs().viewed_by(v.repr()),
{
    proof {
        record.lemma_refs();
    }
    let refs = record.to_ref();
    proof {
        refs.lemma_views_accepted();
    }
    let fields = refs.map(FieldViews);
    proof {
        refs.lemma_views(fields);
        V::lemma_into_from(fields);
    }
    Generic::from(fields)
}

/// Moves every field of a record into a shared handle.
///
/// The record is consumed. The result has the record's fields in the record's
/// order, each as a shared handle with the contents that the field had.
pub fn arcs<R, S>(record: R) -> (s: S) where
    R: Generic,
    <R as Generic>::Repr: Buffers<Output = <S as Generic>::Repr>,
    S: Generic,

    ensures
        record.repr().shared_as(s.repr()),
{
    let owned = Generic::into(record);
    proof {
        owned.lemma_arcs_accepted();
    }
    let fields = owned.map(FieldArcs);
    proof {
        owned.lemma_arcs(fields);
        S::lemma_into_from(fields);
    }
    Generic::from(fields)
}

} // verus!
