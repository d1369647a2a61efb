//! Walking a list of fields with a per-field transformation.
//!
//! There are three traversals: a fold of per-field verdicts to one `bool`, an
//! element-wise map and a traversal for effect. Each visits every field once,
//! head first, and hands the transformation from one field to the next, so
//! that a transformation with state sees the fields in declaration order.
//! None of them stops early.

use vstd::prelude::*;
use crate::func::Func;
use crate::hlist::HCons;
use crate::hlist::HNil;

verus! {

/// Fold to a scalar: a list on whose every field `F` gives a verdict.
///
/// The result is the conjunction of the verdicts, and `true` for the empty
/// list. Every field is asked, also after one verdict was `false`.
pub trait AllSatisfy<F>: Sized {
    /// Whether `f`, started in the state `f`, accepts every field in turn.
    spec fn all_accepted(self, f: F) -> bool;

    /// Whether asking `f` about every field, head first, may give verdicts
    /// whose conjunction is `all`.
    spec fn all_related(self, f: F, all: bool) -> bool;

    /// Asks `f` about every field, head first, and returns whether every
    /// verdict was `true`.
    fn all_satisfy(self, f: F) -> (all: bool)
        requires
            self.all_accepted(f),
        ensures
            self.all_related(f, all),
    ;
}

impl<F> AllSatisfy<F> for HNil {
    open spec fn all_accepted(self, f: F) -> bool {
        true
    }

    open spec fn all_related(self, f: F, all: bool) -> bool {
        all
    }

    fn all_satisfy(self, f: F) -> (all: bool) {
        true
    }
}

impl<F: Func<H, Output = bool>, H, T: AllSatisfy<F>> AllSatisfy<F> for HCons<H, T> {
    open spec fn all_accepted(self, f: F) -> bool {
        &&& f.accepts(self.head)
        &&& forall|mid: F, here: bool| #[trigger]
            f.relates(self.head, mid, here) ==> self.tail.all_accepted(mid)
    }

    open spec fn all_related(self, f: F, all: bool) -> bool {
        exists|mid: F, here: bool, rest: bool| #[trigger]
            f.relates(self.head, mid, here) && #[trigger] self.tail.all_related(mid, rest) && all
                == (here && rest)
    }

    fn all_satisfy(self, f: F) -> (all: bool) {
        let mut f_now = f;
        let HCons { head, tail } = self;
        let here = f_now.call(head);
        let ghost mid = f_now;
        let rest = tail.all_satisfy(f_now);
        assert(f.relates(self.head, mid, here) && self.tail.all_related(mid, rest));
        here && rest
    }
}

/// Element-wise map: a list whose fields can each be transformed by `F`.
///
/// The result has as many fields as `self`, in the same order; its field at
/// each position is the image under `F` of the field of `self` there.
pub trait HMappable<F>: Sized {
    /// The list of the transformed fields.
    type Output;

    /// Whether `f`, started in the state `f`, accepts every field in turn.
    spec fn map_accepted(self, f: F) -> bool;

    /// Whether `out` holds, position by position, a result of `f` on the
    /// field of `self` at that position, the calls being made head first.
    spec fn map_related(self, f: F, out: Self::Output) -> bool;

    /// Transforms every field, head first.
    fn map(self, f: F) -> (out: Self::Output)
        requires
            self.map_accepted(f),
        ensures
            self.map_related(f, out),
    ;
}

impl<F> HMappable<F> for HNil {
    type Output = HNil;

    open spec fn map_accepted(self, f: F) -> bool {
        true
    }

    open spec fn map_related(self, f: F, out: HNil) -> bool {
        true
    }

    fn map(self, f: F) -> (out: HNil) {
        HNil
    }
}

impl<F: Func<H>, H, T: HMappable<F>> HMappable<F> for HCons<H, T> {
    type Output = HCons<<F as Func<H>>::Output, <T as HMappable<F>>::Output>;

    open spec fn map_accepted(self, f: F) -> bool {
        &&& f.accepts(self.head)
        &&& forall|mid: F, o: <F as Func<H>>::Output| #[trigger]
            f.relates(self.head, mid, o) ==> self.tail.map_accepted(mid)
    }

    open spec fn map_related(self, f: F, out: Self::Output) -> bool {
        exists|mid: F| #[trigger]
            f.relates(self.head, mid, out.head) && self.tail.map_related(mid, out.tail)
    }

    fn map(self, f: F) -> (out: Self::Output) {
        let mut f_now = f;
        let HCons { head, tail } = self;
        let new_head = f_now.call(head);
        let ghost mid = f_now;
        let new_tail = tail.map(f_now);
        let out = HCons { head: new_head, tail: new_tail };
        assert(f.relates(self.head, mid, out.head) && self.tail.map_related(mid, out.tail));
        out
    }
}

/// Side-effecting traversal: a list on whose every field `F` can be run for
/// its effect on the state of `F` alone.
pub trait ForEach<F>: Sized {
    /// Whether `f`, started in the state `f`, accepts every field in turn.
    spec fn each_accepted(self, f: F) -> bool;

    /// Whether running `f` on every field, head first, may take it from the
    /// state `f` to the state `after`.
    spec fn each_related(self, f: F, after: F) -> bool;

    /// Runs `f` on every field, head first, and hands `f` back as the
    /// traversal left it.
    fn for_each(self, f: F) -> (after: F)
        requires
            self.each_accepted(f),
        ensures
            self.each_related(f, after),
    ;
}

impl<F> ForEach<F> for HNil {
    open spec fn each_accepted(self, f: F) -> bool {
        true
    }

    open spec fn each_related(self, f: F, after: F) -> bool {
        after == f
    }

    fn for_each(self, f: F) -> (after: F) {
        f
    }
}

impl<F: Func<H, Output = ()>, H, T: ForEach<F>> ForEach<F> for HCons<H, T> {
    open spec fn each_accepted(self, f: F) -> bool {
        &&& f.accepts(self.head)
        &&& forall|mid: F| #[trigger] f.relates(self.head, mid, ()) ==> self.tail.each_accepted(mid)
    }

    open spec fn each_related(self, f: F, after: F) -> bool {
        exists|mid: F| #[trigger]
            f.relates(self.head, mid, ()) && self.tail.each_related(mid, after)
    }

    fn for_each(self, f: F) -> (after: F) {
        let mut f_now = f;
        let HCons { head, tail } = self;
        f_now.call(head);
        let ghost mid = f_now;
        let after = tail.for_each(f_now);
        assert(f.relates(self.head, mid, ()) && self.tail.each_related(mid, after));
        after
    }
}

} // verus!
