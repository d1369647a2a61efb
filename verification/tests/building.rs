use generic_lib::all_fields_present;
use generic_lib::hlist::{h_cons, HCons, HNil};
use generic_lib::to_ref::ToRef;
use generic_lib::unwrap::build;

type Foo = HCons<Option<usize>, HCons<Vec<i32>, HCons<Option<String>, HCons<Vec<String>, HNil>>>>;

type PartialFoo = HCons<
    Option<Option<usize>>,
    HCons<Option<Vec<i32>>, HCons<Option<Option<String>>, HCons<Option<Vec<String>>, HNil>>>,
>;

fn partial(
    a: Option<Option<usize>>,
    b: Option<Vec<i32>>,
    c: Option<Option<String>>,
    d: Option<Vec<String>>,
) -> PartialFoo {
    h_cons(a, h_cons(b, h_cons(c, h_cons(d, HNil))))
}

#[test]
fn three_of_four_slots_is_rejected_and_handed_back() {
    let p = partial(Some(Some(4)), Some(vec![1, 2]), None, Some(vec!["w".to_string()]));
    assert!(!all_fields_present(p.to_ref()));
    let res: Result<Foo, PartialFoo> = build(p.clone());
    assert_eq!(res, Err(p));
}

#[test]
fn four_of_four_slots_builds_the_record_in_order() {
    let p = partial(Some(Some(4)), Some(vec![1, 2]), Some(None), Some(vec!["w".to_string()]));
    assert!(all_fields_present(p.to_ref()));
    let res: Result<Foo, PartialFoo> = build(p);
    let expected: Foo = h_cons(Some(4), h_cons(vec![1, 2], h_cons(None, h_cons(vec!["w".to_string()], HNil))));
    assert_eq!(res, Ok(expected));
}

#[test]
fn filling_the_last_slot_of_a_rejected_partial_builds() {
    let p = partial(Some(None), None, Some(Some("k".to_string())), Some(vec![]));
    let res: Result<Foo, PartialFoo> = build(p);
    let mut p = match res {
        Err(p) => p,
        Ok(_) => panic!("a partial record with a missing field was built"),
    };
    assert_eq!(p.head, Some(None));
    assert_eq!(p.tail.head, None);
    p.tail.head = Some(vec![9]);
    let res: Result<Foo, PartialFoo> = build(p);
    let expected: Foo = h_cons(None, h_cons(vec![9], h_cons(Some("k".to_string()), h_cons(vec![], HNil))));
    assert_eq!(res, Ok(expected));
}

#[test]
fn each_single_missing_slot_is_rejected() {
    let full = || partial(Some(Some(1)), Some(vec![2]), Some(None), Some(vec![]));
    let mut p = full();
    p.head = None;
    assert_eq!(build::<PartialFoo, Foo>(p.clone()), Err(p));
    let mut p = full();
    p.tail.head = None;
    assert_eq!(build::<PartialFoo, Foo>(p.clone()), Err(p));
    let mut p = full();
    p.tail.tail.head = None;
    assert_eq!(build::<PartialFoo, Foo>(p.clone()), Err(p));
    let mut p = full();
    p.tail.tail.tail.head = None;
    assert_eq!(build::<PartialFoo, Foo>(p.clone()), Err(p));
}

#[test]
fn nothing_filled_is_rejected() {
    let p = partial(None, None, None, None);
    assert_eq!(build::<PartialFoo, Foo>(p.clone()), Err(p));
}

#[test]
fn record_without_fields_builds() {
    assert_eq!(build::<HNil, HNil>(HNil), Ok(HNil));
}
