//! The presence check: is every optional field of a record populated?

use vstd::prelude::*;
use crate::func::Func;
use crate::generic::Generic;
use crate::generic::List;
use crate::hlist::HCons;
use crate::hlist::HNil;
use crate::mapper::AllSatisfy;
use crate::mapper::ForEach;

verus! {

/// Records into a flag whether every optional field seen so far was
/// populated. The flag is the side channel of a traversal: each call and-s
/// the presence of one field into it and returns nothing.
pub struct AllFieldsPresent<'a>(pub &'a mut bool);

impl<'a> AllFieldsPresent<'a> {
    /// The flag as it stands.
    pub open spec fn flag(self) -> bool {
        *self.0
    }
}

impl<'a, 'b, T> Func<&'b Option<T>> for AllFieldsPresent<'a> {
    type Output = ();

    open spec fn accepts(self, i: &'b Option<T>) -> bool {
        true
    }

    open spec fn relates(self, i: &'b Option<T>, after: Self, o: ()) -> bool {
        after.flag() == (self.flag() && i is Some)
    }

    /// And-s the presence of `i` into the flag. The handler keeps the
    /// reference it was made with, so the `bool` that was lent to it is the
    /// one that holds the new value once the handler is done.
    fn call(&mut self, i: &'b Option<T>) -> (o: ())
        ensures
            final(self).flag() == (old(self).flag() && i is Some),
            *final(final(self).0) == *final(old(self).0),
    {
        let present = i.is_some();
        *self.0 = *self.0 && present;
    }
}

/// The verdict on one optional field: is it populated?
pub struct IsPresent;

impl<'b, T> Func<&'b Option<T>> for IsPresent {
    type Output = bool;

    open spec fn accepts(self, i: &'b Option<T>) -> bool {
        true
    }

    open spec fn relates(self, i: &'b Option<T>, after: Self, o: bool) -> bool {
        o == (i is Some)
    }

    fn call(&mut self, i: &'b Option<T>) -> (o: bool) {
        i.is_some()
    }
}

/// A list of references to optional fields.
///
/// The lemmas tie the two traversals that can decide presence, the one for
/// effect with [`AllFieldsPresent`] and the fold with [`IsPresent`], to the
/// plain statement `all_present`.
pub trait AllPresent<'f>: List + ForEach<AllFieldsPresent<'f>> + AllSatisfy<IsPresent> {
    /// Whether every field of the list is populated.
    spec fn all_present(self) -> bool;

    /// How many fields the list has.
    spec fn len(self) -> nat;

    /// Whether the field at position `k`, counted from the head, is
    /// populated; it is meant for `k < self.len()`.
    spec fn present_at(self, k: nat) -> bool;

    /// How many fields of the list are missing.
    spec fn missing(self) -> nat;

    /// Every field is populated exactly if the field at every position is.
    proof fn lemma_each_position(self)
        ensures
            self.all_present() <==> forall|k: nat| k < self.len() ==> #[trigger] self.present_at(k),
    ;

    /// Every field is populated exactly if none is missing, and no more
    /// fields are missing than there are.
    proof fn lemma_missing(self)
        ensures
            self.all_present() <==> self.missing() == 0,
            self.missing() <= self.len(),
    ;

    /// A traversal with [`AllFieldsPresent`] is never refused.
    proof fn lemma_for_each_accepted(self, f: AllFieldsPresent<'f>)
        ensures
            self.each_accepted(f),
    ;

    /// A traversal with [`AllFieldsPresent`] leaves the flag true exactly if
    /// the flag was true and every field is populated.
    proof fn lemma_for_each(self, f: AllFieldsPresent<'f>, after: AllFieldsPresent<'f>)
        requires
            self.each_related(f, after),
        ensures
            after.flag() == (f.flag() && self.all_present()),
    ;

    /// A fold with [`IsPresent`] is never refused.
    proof fn lemma_fold_accepted(self)
        ensures
            self.all_accepted(IsPresent),
    ;

    /// The only result of a fold with [`IsPresent`] is whether every field is
    /// populated.
    proof fn lemma_fold(self, all: bool)
        ensures
            self.all_related(IsPresent, all) <==> all == self.all_present(),
    ;
}

impl<'f> AllPresent<'f> for HNil {
    open spec fn all_present(self) -> bool {
        true
    }

    open spec fn len(self) -> nat {
        0
    }

    open spec fn present_at(self, k: nat) -> bool {
        true
    }

    open spec fn missing(self) -> nat {
        0
    }

    proof fn lemma_each_position(self) {
    }

    proof fn lemma_missing(self) {
    }

    proof fn lemma_for_each_accepted(self, f: AllFieldsPresent<'f>) {
    }

    proof fn lemma_for_each(self, f: AllFieldsPresent<'f>, after: AllFieldsPresent<'f>) {
    }

    proof fn lemma_fold_accepted(self) {
    }

    proof fn lemma_fold(self, all: bool) {
    }
}

impl<'f, 'b, T, Tail: AllPresent<'f>> AllPresent<'f> for HCons<&'b Option<T>, Tail> {
    open spec fn all_present(self) -> bool {
        self.head is Some && self.tail.all_present()
    }

    open spec fn len(self) -> nat {
        self.tail.len() + 1
    }

    open spec fn present_at(self, k: nat) -> bool {
        if k == 0 {
            self.head is Some
        } else {
            self.tail.present_at((k - 1) as nat)
        }
    }

    open spec fn missing(self) -> nat {
        if self.head is Some {
            self.tail.missing()
        } else {
            self.tail.missing() + 1
        }
    }

    proof fn lemma_each_position(self) {
        self.tail.lemma_each_position();
        if self.all_present() {
            assert forall|k: nat| k < self.len() implies #[trigger] self.present_at(k) by {
                if k > 0 {
                    assert(self.tail.present_at((k - 1) as nat));
                }
            }
        }
        if forall|k: nat| k < self.len() ==> #[trigger] self.present_at(k) {
            assert(self.present_at(0));
            assert forall|j: nat| j < self.tail.len() implies #[trigger] self.tail.present_at(
                j,
            ) by {
                assert(self.present_at(j + 1));
            }
        }
    }

    proof fn lemma_missing(self) {
        self.tail.lemma_missing();
    }

    proof fn lemma_for_each_accepted(self, f: AllFieldsPresent<'f>) {
        assert forall|mid: AllFieldsPresent<'f>| #[trigger]
            f.relates(self.head, mid, ()) implies self.tail.each_accepted(mid) by {
            self.tail.lemma_for_each_accepted(mid);
        }
    }

    proof fn lemma_for_each(self, f: AllFieldsPresent<'f>, after: AllFieldsPresent<'f>) {
        let mid = choose|mid: AllFieldsPresent<'f>| #[trigger]
            f.relates(self.head, mid, ()) && self.tail.each_related(mid, after);
        self.tail.lemma_for_each(mid, after);
    }

    proof fn lemma_fold_accepted(self) {
        self.tail.lemma_fold_accepted();
    }

    proof fn lemma_fold(self, all: bool) {
        let here = self.head is Some;
        let rest = self.tail.all_present();
        self.tail.lemma_fold(rest);
        if self.all_related(IsPresent, all) {
            let (mid, h, r) = choose|mid: IsPresent, h: bool, r: bool| #[trigger]
                IsPresent.relates(self.head, mid, h) && #[trigger] self.tail.all_related(mid, r)
                    && all == (h && r);
            self.tail.lemma_fold(r);
        }
        if all == self.all_present() {
            assert(IsPresent.relates(self.head, IsPresent, here) && self.tail.all_related(
                IsPresent,
                rest,
            ) && all == (here && rest));
        }
    }
}

/// Whether every field of a record of references to optional fields is
/// populated. The borrowed form of a partial record is such a record.
///
/// Every field is looked at, also after one was found missing; nothing but
/// the verdict comes of it.
pub fn all_fields_present<G>(data: G) -> (all: bool) where
    G: Generic,
    <G as Generic>::Repr: for<'f> AllPresent<'f>,

    ensures
        all == data.repr().all_present(),
        all <==> forall|k: nat| k < data.repr().len() ==> #[trigger] data.repr().present_at(k),
{
    let fields = Generic::into(data);
    proof {
        fields.lemma_each_position();
    }
    let mut all_present = true;
    let f = AllFieldsPresent(&mut all_present);
    proof {
        fields.lemma_for_each_accepted(f);
    }
    let done = fields.for_each(f);
    proof {
        fields.lemma_for_each(f, done);
    }
    *done.0
}

/// A list with a missing field is not complete, at whichever position the
/// missing field stands and whatever the fields before and after it hold.
pub proof fn lemma_missing_at<'f, L: AllPresent<'f>>(data: L, k: nat)
    requires
        k < data.len(),
        !data.present_at(k),
    ensures
        !data.all_present(),
{
    data.lemma_each_position();
}

/// A list with exactly one missing field is not complete, whichever field
/// it is.
pub proof fn lemma_one_missing<'f, L: AllPresent<'f>>(data: L)
    requires
        data.missing() == 1,
    ensures
        !data.all_present(),
{
    data.lemma_missing();
}

/// The fold with [`IsPresent`] and the traversal with [`AllFieldsPresent`]
/// started on a true flag come to the same verdict.
pub proof fn lemma_fold_agrees<'f, L: AllPresent<'f>>(
    data: L,
    all: bool,
    f: AllFieldsPresent<'f>,
    after: AllFieldsPresent<'f>,
)
    requires
        data.all_related(IsPresent, all),
        f.flag(),
        data.each_related(f, after),
    ensures
        all == after.flag(),
{
    data.lemma_fold(all);
    data.lemma_for_each(f, after);
}

} // verus!
