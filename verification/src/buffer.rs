//! What a field type has to offer to be projected into a borrowed or a shared
//! form.

use vstd::prelude::*;

verus! {

/// An owned buffer that has a borrowed view type and a shared-ownership type,
/// each made from the owned buffer without changing what it holds.
///
/// The view `@` of all three is the same mathematical value, the logical
/// contents of the buffer.
pub trait Buffer: View + Sized {
    /// A read-only view of a buffer, valid as long as the buffer is borrowed.
    type Borrowed<'a>: View<V = Self::V> where Self: 'a;

    /// A handle to a buffer that several owners may hold and read.
    type Shared: View<V = Self::V>;

    /// Borrows the buffer as a read-only view of all its contents.
    fn as_view<'a>(&'a self) -> (v: Self::Borrowed<'a>)
        ensures
            v@ == self@,
    ;

    /// Moves the buffer into a shared handle with the same contents.
    fn into_shared(self) -> (s: Self::Shared)
        ensures
            s@ == self@,
    ;
}

} // verus!
