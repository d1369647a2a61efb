use generic_lib::all_fields_present;
use generic_lib::hlist::{h_cons, HNil};
use generic_lib::to_ref::ToRef;

type Slots = (Option<Option<usize>>, Option<Vec<i32>>, Option<Option<String>>, Option<Vec<String>>);

fn check(slots: &Slots) -> bool {
    all_fields_present(h_cons(&slots.0, h_cons(&slots.1, h_cons(&slots.2, h_cons(&slots.3, HNil)))))
}

fn full() -> Slots {
    (Some(Some(1)), Some(vec![2, 3]), Some(None), Some(vec!["s".to_string()]))
}

#[test]
fn all_present_is_true() {
    assert!(check(&full()));
}

#[test]
fn empty_list_is_complete() {
    assert!(all_fields_present(HNil));
}

#[test]
fn one_absent_is_false_whichever_it_is() {
    let mut s = full();
    s.0 = None;
    assert!(!check(&s));
    let mut s = full();
    s.1 = None;
    assert!(!check(&s));
    let mut s = full();
    s.2 = None;
    assert!(!check(&s));
    let mut s = full();
    s.3 = None;
    assert!(!check(&s));
}

#[test]
fn several_absent_is_false() {
    let mut s = full();
    s.0 = None;
    s.3 = None;
    assert!(!check(&s));
    assert!(!check(&(None, None, None, None)));
}

#[test]
fn a_populated_field_may_hold_an_empty_value() {
    let s: Slots = (Some(None), Some(vec![]), Some(None), Some(vec![]));
    assert!(check(&s));
}

#[test]
fn presence_of_an_owned_list_through_to_ref() {
    let list = h_cons(Some(1u8), h_cons(None::<String>, HNil));
    assert!(!all_fields_present(list.to_ref()));
    let list = h_cons(Some(1u8), h_cons(Some("x".to_string()), HNil));
    assert!(all_fields_present(list.to_ref()));
    assert_eq!(list.head, Some(1u8));
}
