//! One-dimensional arrays of `i64` backed by `ndarray`: the owned array, its
//! read-only view and its shared-ownership form.
//!
//! `ndarray`'s array type is bounded by traits of its own, which keeps it from
//! being declared to the verifier, so each of the three forms is held in an
//! opaque struct. What the verifier knows of a value is the sequence of its
//! elements in index order, and that is stated, not proved, by the private
//! functions of this module that call into `ndarray`.

use vstd::prelude::*;
use crate::buffer::Buffer;

verus! {

/// An owned one-dimensional array of `i64`, an `ndarray::Array1<i64>`.
#[verifier::external_body]
pub struct IntArray {
    inner: ndarray::Array1<i64>,
}

/// A read-only view of a one-dimensional array of `i64`, an
/// `ndarray::ArrayView1<i64>`.
#[verifier::external_body]
pub struct IntArrayView<'a> {
    inner: ndarray::ArrayView1<'a, i64>,
}

/// A one-dimensional array of `i64` in shared ownership, an
/// `ndarray::ArcArray1<i64>`.
#[verifier::external_body]
pub struct IntArcArray {
    inner: ndarray::ArcArray1<i64>,
}

/// The elements of an owned array, in index order.
pub uninterp spec fn array_elems(a: IntArray) -> Seq<i64>;

/// The elements that a view shows, in index order.
pub uninterp spec fn view_elems(v: IntArrayView) -> Seq<i64>;

/// The elements of a shared array, in index order.
pub uninterp spec fn arc_elems(a: IntArcArray) -> Seq<i64>;

impl View for IntArray {
    type V = Seq<i64>;

    open spec fn view(&self) -> Seq<i64> {
        array_elems(*self)
    }
}

impl<'a> View for IntArrayView<'a> {
    type V = Seq<i64>;

    open spec fn view(&self) -> Seq<i64> {
        view_elems(*self)
    }
}

impl View for IntArcArray {
    type V = Seq<i64>;

    open spec fn view(&self) -> Seq<i64> {
        arc_elems(*self)
    }
}

/// `ArrayBase::from_vec`, called as `ndarray::Array1::from_vec`: the array
/// takes over the vector without copying, so it has the vector's length and
/// the vector's elements in the vector's order. The call panics only for an
/// element type of size zero, which `i64` is not.
#[verifier::external_body]
fn array_from_vec(v: Vec<i64>) -> (a: IntArray)
    ensures
        array_elems(a) == v@,
{
    IntArray { inner: ndarray::Array1::from_vec(v) }
}

/// `ArrayRef::view`, called on an `ndarray::Array1`: a read-only view with
/// the array's pointer, shape and strides, so it shows the array's elements
/// in the array's order.
#[verifier::external_body]
fn array_view<'a>(a: &'a IntArray) -> (v: IntArrayView<'a>)
    ensures
        view_elems(v) == array_elems(*a),
{
    IntArrayView { inner: a.inner.view() }
}

/// `ArrayRef::view`, called on an `ndarray::ArcArray1`: a read-only view with
/// the array's pointer, shape and strides, so it shows the array's elements
/// in the array's order.
#[verifier::external_body]
fn arc_view<'a>(a: &'a IntArcArray) -> (v: IntArrayView<'a>)
    ensures
        view_elems(v) == arc_elems(*a),
{
    IntArrayView { inner: a.inner.view() }
}

/// `ArrayRef::to_vec` for one dimension, called on an `ndarray::ArrayView1`:
/// a new vector of the elements that the view shows, in index order.
#[verifier::external_body]
fn view_to_vec(v: &IntArrayView) -> (out: Vec<i64>)
    ensures
        out@ == view_elems(*v),
{
    v.inner.to_vec()
}

/// `From<Array<A, D>> for ArcArray<A, D>`, called as
/// `ndarray::ArcArray1::from`: the array's storage is moved behind a
/// reference count; pointer, shape and strides stay, so the elements and
/// their order stay.
#[verifier::external_body]
fn array_into_arc(a: IntArray) -> (s: IntArcArray)
    ensures
        arc_elems(s) == array_elems(a),
{
    IntArcArray { inner: ndarray::ArcArray1::from(a.inner) }
}

impl IntArray {
    /// The array that holds the elements of `v`, in order.
    pub fn from_vec(v: Vec<i64>) -> (a: IntArray)
        ensures
            a@ == v@,
    {
        array_from_vec(v)
    }

    /// A new vector of the array's elements, in index order.
    pub fn to_vec(&self) -> (v: Vec<i64>)
        ensures
            v@ == self@,
    {
        array_view(self).to_vec()
    }
}

impl<'a> IntArrayView<'a> {
    /// A new vector of the elements that the view shows, in index order.
    pub fn to_vec(&self) -> (v: Vec<i64>)
        ensures
            v@ == self@,
    {
        view_to_vec(self)
    }
}

impl IntArcArray {
    /// A read-only view of the whole array; shared arrays are read through
    /// views.
    pub fn as_view<'a>(&'a self) -> (v: IntArrayView<'a>)
        ensures
            v@ == self@,
    {
        arc_view(self)
    }

    /// A new vector of the array's elements, in index order.
    pub fn to_vec(&self) -> (v: Vec<i64>)
        ensures
            v@ == self@,
    {
        arc_view(self).to_vec()
    }
}

impl Buffer for IntArray {
    type Borrowed<'a> = IntArrayView<'a>;

    type Shared = IntArcArray;

    fn as_view<'a>(&'a self) -> (v: IntArrayView<'a>) {
        array_view(self)
    }

    fn into_shared(self) -> (s: IntArcArray) {
        array_into_arc(self)
    }
}

} // verus!
