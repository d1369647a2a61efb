//! Records of buffers and their companions.

use vstd::prelude::*;
use crate::generic::Generic;
use crate::presence::AllPresent;
use crate::project::arcs;
use crate::project::BufferRefs;
use crate::project::Buffers;
use crate::project::views;
use crate::to_ref::RefGeneric;
use crate::to_ref::ToRef;
use crate::unwrap::build;
use crate::unwrap::Fillable;
use crate::unwrap::FillableRefs;

verus! {

/// A record of buffers with its three companions: the partial record it is
/// built from, the record of shared handles and the record of views.
///
/// An implementation names the three companion types; the operations come
/// with the trait.
pub trait ArrayFields: Generic + Sized where
    <Self as Generic>::Repr: Buffers<Output = <Self::Arcs as Generic>::Repr>,
    <Self::Partial as Generic>::Repr: Fillable<Output = <Self as Generic>::Repr>,
 {
    /// The record with every field optional.
    type Partial: Generic;

    /// The record with every field in shared ownership.
    type Arcs: Generic;

    /// The record with every field a read-only view.
    type Views<'a>: Generic where Self: 'a;

    /// Builds the record from a partial one, or hands the partial one back
    /// unchanged if a field is missing.
    fn build(partial: Self::Partial) -> (res: Result<Self, Self::Partial>) where
        Self::Partial: for<'a> RefGeneric<'a>,
        <Self::Partial as Generic>::Repr: for<'a, 'f> FillableRefs<'a, 'f>,
        for<'a, 'f> <<Self::Partial as Generic>::Repr as ToRef<'a>>::Output: AllPresent<'f>,

        ensures
            match res {
                Ok(record) => partial.repr().complete() && record.repr() == partial.repr().filled(),
                Err(p) => !partial.repr().complete() && p == partial,
            },
    {
        build(partial)
    }

    /// Borrows every field as a read-only view with the same contents.
    fn views<'a>(&'a self) -> (v: Self::Views<'a>) where
        Self: RefGeneric<'a>,
        <Self as Generic>::Repr: ToRef<'a>,
        <<Self as Generic>::Repr as ToRef<'a>>::Output: BufferRefs<
            'a,
            Output = <Self::Views<'a> as Generic>::Repr,
        >,

        ensures
            self.repr().refs().viewed_by(v.repr()),
    {
        views(self)
    }

    /// Moves every field into a shared handle with the same contents.
    fn arcs(self) -> (s: Self::Arcs)
        ensures
            self.repr().shared_as(s.repr()),
    {
        arcs(self)
    }
}

} // verus!
