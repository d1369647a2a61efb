//! Per-field transformations.

use vstd::prelude::*;

verus! {

/// A transformation of one field of type `I`.
///
/// One value may implement `Func` for many field types, each with its own
/// output type: which implementation runs on a field is chosen by the field's
/// static type alone. A transformation may carry state, which a call may
/// change; `accepts` and `relates` describe a call as a relation between the
/// state before, the field, the state after and the result.
pub trait Func<I>: Sized {
    /// What a field of type `I` is turned into.
    type Output;

    /// Whether `call` may be applied to `i` in the state `self`.
    spec fn accepts(self, i: I) -> bool;

    /// Whether a call on `i` in the state `self` may end in the state `after`
    /// with the result `o`.
    spec fn relates(self, i: I, after: Self, o: Self::Output) -> bool;

    /// Transforms one field.
    fn call(&mut self, i: I) -> (o: Self::Output)
        requires
            old(self).accepts(i),
        ensures
            old(self).relates(i, *final(self), o),
    ;
}

} // verus!
