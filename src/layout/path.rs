//! Paths from a value to the place that holds its discriminant.

use vstd::prelude::*;

use crate::layout::VariantRepr;
use crate::list::List;
use crate::name::Name;

verus! {

/// One step into a value.
#[derive(Debug, PartialEq, Eq)]
pub enum ValueProj {
    Field(Name),
    /// Into a variant: through its `data` field for a wrapper, in place for a
    /// transparent one.
    Variant { repr: VariantRepr, name: Name },
    Tag,
}

impl Clone for ValueProj {
    fn clone(&self) -> (r: Self)
        ensures
            r == *self,
    {
        match self {
            ValueProj::Field(n) => ValueProj::Field(n.clone()),
            ValueProj::Variant { repr, name } => ValueProj::Variant { repr: *repr, name: name.clone() },
            ValueProj::Tag => ValueProj::Tag,
        }
    }
}

/// A path to the discriminant, stored reversed: the innermost step is the
/// head, and the step taken first from the root is the last element.
#[derive(Debug, PartialEq, Eq)]
pub struct TagPath {
    pub reversed: List<ValueProj>,
}

impl TagPath {
    /// The steps from the root inward.
    pub open spec fn steps(self) -> Seq<ValueProj> {
        self.reversed.view_seq().reverse()
    }

    pub fn empty() -> (r: Self)
        ensures
            r.reversed == List::<ValueProj>::Nil,
    {
        Self { reversed: List::Nil }
    }

    pub fn singleton(proj: ValueProj) -> (r: Self)
        ensures
            r.reversed == List::Cons(proj, Box::new(List::Nil)),
    {
        Self { reversed: List::Cons(proj, Box::new(List::Nil)) }
    }

    /// Folds `f` over the steps, innermost first.
    pub fn rfold<R, F: Fn(R, ValueProj) -> R>(self, init: R, f: F) -> (r: R)
        requires
            forall|acc: R, p: ValueProj| f.requires((acc, p)),
        ensures
            folds_to(f, self.reversed, init, r),
    {
        fold_list(self.reversed, init, &f)
    }

    /// This path, taken inside the value that `outer` leads to.
    pub fn with_outer_path(self, outer: TagPath) -> (r: Self)
        ensures
            r.reversed == self.reversed.spec_concat(outer.reversed),
            r.steps() == outer.steps() + self.steps(),
    {
        proof {
            self.reversed.lemma_concat_view(outer.reversed);
            assert((self.reversed.view_seq() + outer.reversed.view_seq()).reverse() =~= outer.steps()
                + self.steps());
        }
        Self { reversed: self.reversed.concat(outer.reversed) }
    }
}

/// `r` is a result of folding `f` over `l` from `init`, head first.
pub open spec fn folds_to<R, F: Fn(R, ValueProj) -> R>(f: F, l: List<ValueProj>, init: R, r: R) -> bool
    decreases l,
{
    match l {
        List::Nil => r == init,
        List::Cons(p, tl) => exists|mid: R| #[trigger] f.ensures((init, p), mid) && folds_to(f, *tl, mid, r),
    }
}

fn fold_list<R, F: Fn(R, ValueProj) -> R>(l: List<ValueProj>, acc: R, f: &F) -> (r: R)
    requires
        forall|a: R, p: ValueProj| f.requires((a, p)),
    ensures
        folds_to(*f, l, acc, r),
    decreases l,
{
    match l {
        List::Nil => acc,
        List::Cons(p, tl) => {
            let ghost acc0 = acc;
            let ghost p0 = p;
            let mid = f(acc, p);
            let r = fold_list(*tl, mid, f);
            proof {
                assert(f.ensures((acc0, p0), mid) && folds_to(*f, *tl, mid, r));
            }
            r
        },
    }
}

} // verus!
