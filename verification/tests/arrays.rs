use generic_lib::array::IntArray;
use generic_lib::buffer::Buffer;
use generic_lib::func::Func;
use generic_lib::{FieldArcs, FieldViews};

#[test]
fn from_vec_then_to_vec_gives_the_elements_in_order() {
    let a = IntArray::from_vec(vec![3, -1, 4, 1, -5]);
    assert_eq!(a.to_vec(), vec![3, -1, 4, 1, -5]);
}

#[test]
fn empty_array() {
    let a = IntArray::from_vec(vec![]);
    assert_eq!(a.to_vec(), Vec::<i64>::new());
    assert_eq!(a.as_view().to_vec(), Vec::<i64>::new());
    assert_eq!(a.into_shared().to_vec(), Vec::<i64>::new());
}

#[test]
fn view_shows_the_elements_and_leaves_the_array() {
    let a = IntArray::from_vec(vec![i64::MIN, 0, i64::MAX]);
    let v = a.as_view();
    assert_eq!(v.to_vec(), vec![i64::MIN, 0, i64::MAX]);
    let w = a.as_view();
    assert_eq!(w.to_vec(), v.to_vec());
    assert_eq!(a.to_vec(), vec![i64::MIN, 0, i64::MAX]);
}

#[test]
fn shared_array_keeps_the_elements() {
    let a = IntArray::from_vec(vec![10, 20, 30]);
    let s = a.into_shared();
    assert_eq!(s.to_vec(), vec![10, 20, 30]);
    assert_eq!(s.as_view().to_vec(), vec![10, 20, 30]);
}

#[test]
fn field_views_takes_a_view() {
    let a = IntArray::from_vec(vec![1, 2]);
    let mut f = FieldViews;
    let v = f.call(&a);
    assert_eq!(v.to_vec(), vec![1, 2]);
}

#[test]
fn field_arcs_shares() {
    let a = IntArray::from_vec(vec![1, 2]);
    let mut f = FieldArcs;
    let s = f.call(a);
    assert_eq!(s.to_vec(), vec![1, 2]);
}
