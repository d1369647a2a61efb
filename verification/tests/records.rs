use generic_lib::all_fields_present;
use generic_lib::generic::{from_generic, into_generic, Generic};
use generic_lib::hlist::{h_cons, HCons, HNil};
use generic_lib::to_ref::{RefGeneric, ToRef};
use generic_lib::unwrap::build;

#[derive(Clone, Debug, PartialEq)]
struct Foo {
    count: Option<usize>,
    samples: Vec<i32>,
    label: Option<String>,
    tags: Vec<String>,
}

#[derive(Clone, Debug, PartialEq)]
struct PartialFoo {
    count: Option<Option<usize>>,
    samples: Option<Vec<i32>>,
    label: Option<Option<String>>,
    tags: Option<Vec<String>>,
}

type FooFields = HCons<Option<usize>, HCons<Vec<i32>, HCons<Option<String>, HCons<Vec<String>, HNil>>>>;

type PartialFooFields = HCons<
    Option<Option<usize>>,
    HCons<Option<Vec<i32>>, HCons<Option<Option<String>>, HCons<Option<Vec<String>>, HNil>>>,
>;

// The functions of `Generic`, `ToRef` and `RefGeneric` that exist for proofs
// alone are never called at run time.

impl Generic for Foo {
    type Repr = FooFields;

    fn repr(self) -> FooFields {
        unreachable!()
    }

    fn from_repr(_repr: FooFields) -> Foo {
        unreachable!()
    }

    fn lemma_from_into(self) {}

    fn lemma_into_from(_repr: FooFields) {}

    fn into(self) -> FooFields {
        h_cons(self.count, h_cons(self.samples, h_cons(self.label, h_cons(self.tags, HNil))))
    }

    fn from(repr: FooFields) -> Foo {
        let HCons { head: count, tail } = repr;
        let HCons { head: samples, tail } = tail;
        let HCons { head: label, tail } = tail;
        let HCons { head: tags, tail: HNil } = tail;
        Foo { count, samples, label, tags }
    }
}

impl Generic for PartialFoo {
    type Repr = PartialFooFields;

    fn repr(self) -> PartialFooFields {
        unreachable!()
    }

    fn from_repr(_repr: PartialFooFields) -> PartialFoo {
        unreachable!()
    }

    fn lemma_from_into(self) {}

    fn lemma_into_from(_repr: PartialFooFields) {}

    fn into(self) -> PartialFooFields {
        h_cons(self.count, h_cons(self.samples, h_cons(self.label, h_cons(self.tags, HNil))))
    }

    fn from(repr: PartialFooFields) -> PartialFoo {
        let HCons { head: count, tail } = repr;
        let HCons { head: samples, tail } = tail;
        let HCons { head: label, tail } = tail;
        let HCons { head: tags, tail: HNil } = tail;
        PartialFoo { count, samples, label, tags }
    }
}

impl<'a> ToRef<'a> for PartialFoo {
    type Output = <PartialFooFields as ToRef<'a>>::Output;

    fn refs(&'a self) -> Self::Output {
        unreachable!()
    }

    fn to_ref(&'a self) -> Self::Output {
        h_cons(&self.count, h_cons(&self.samples, h_cons(&self.label, h_cons(&self.tags, HNil))))
    }
}

impl<'a> RefGeneric<'a> for PartialFoo {
    fn lemma_refs(&'a self) {}
}

fn three_of_four() -> PartialFoo {
    PartialFoo {
        count: Some(Some(4)),
        samples: Some(vec![1, 2, 3]),
        label: None,
        tags: Some(vec!["x".to_string(), "y".to_string()]),
    }
}

#[test]
fn foo_with_three_of_four_slots_is_handed_back() {
    let p = three_of_four();
    assert!(!all_fields_present(p.to_ref()));
    let res: Result<Foo, PartialFoo> = build(p.clone());
    assert_eq!(res, Err(p));
}

#[test]
fn foo_with_the_fourth_slot_filled_is_built_in_order() {
    let mut p = three_of_four();
    p.label = Some(Some("name".to_string()));
    assert!(all_fields_present(p.to_ref()));
    let res: Result<Foo, PartialFoo> = build(p);
    assert_eq!(
        res,
        Ok(Foo {
            count: Some(4),
            samples: vec![1, 2, 3],
            label: Some("name".to_string()),
            tags: vec!["x".to_string(), "y".to_string()],
        })
    );
}

#[test]
fn foo_with_any_one_slot_missing_is_not_present() {
    let full = PartialFoo {
        count: Some(None),
        samples: Some(vec![]),
        label: Some(None),
        tags: Some(vec![]),
    };
    assert!(all_fields_present(full.to_ref()));
    let mut p = full.clone();
    p.count = None;
    assert!(!all_fields_present(p.to_ref()));
    assert_eq!(build::<PartialFoo, Foo>(p.clone()), Err(p));
    let mut p = full.clone();
    p.samples = None;
    assert!(!all_fields_present(p.to_ref()));
    assert_eq!(build::<PartialFoo, Foo>(p.clone()), Err(p));
    let mut p = full.clone();
    p.label = None;
    assert!(!all_fields_present(p.to_ref()));
    assert_eq!(build::<PartialFoo, Foo>(p.clone()), Err(p));
    let mut p = full.clone();
    p.tags = None;
    assert!(!all_fields_present(p.to_ref()));
    assert_eq!(build::<PartialFoo, Foo>(p.clone()), Err(p));
}

#[test]
fn foo_round_trip() {
    let foo = Foo { count: None, samples: vec![7], label: Some("l".to_string()), tags: vec![] };
    let fields = into_generic(foo.clone());
    assert_eq!(fields.head, None);
    assert_eq!(fields.tail.head, vec![7]);
    assert_eq!(fields.tail.tail.head, Some("l".to_string()));
    assert_eq!(fields.tail.tail.tail.head, Vec::<String>::new());
    let back: Foo = from_generic(fields);
    assert_eq!(back, foo);
}
