//! Domains: the forms in which a record's fields can be held.
//!
//! A domain is a marker type. `Domain<F>` computes, for a field whose owned
//! type is `F`, the type that holds it in that domain. The computation is made
//! field by field, so a record type with a domain parameter is rewritten one
//! field at a time when the domain changes.

use std::marker::PhantomData;
use crate::buffer::Buffer;
use vstd::prelude::verus;

verus! {

/// Every field is held as it is.
pub struct Owned;

/// Every field is optional: it is there or it is still missing.
pub struct Partial;

/// Every field is held in shared ownership.
pub struct Arcd;

/// Every field is a read-only view that lives for `'a`.
pub struct View<'a>(PhantomData<&'a ()>);

/// The type that holds a field of owned type `F` in the domain `Self`.
pub trait Domain<F> {
    /// The field's type in this domain.
    type Repr;
}

impl<F> Domain<F> for Owned {
    type Repr = F;
}

impl<F> Domain<F> for Partial {
    type Repr = Option<F>;
}

impl<F: Buffer> Domain<F> for Arcd {
    type Repr = <F as Buffer>::Shared;
}

impl<'a, F: Buffer + 'a> Domain<F> for View<'a> {
    type Repr = <F as Buffer>::Borrowed<'a>;
}

} // verus!
