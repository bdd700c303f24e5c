use vstd::prelude::*;

verus! {

/// A singly linked list.
#[derive(Debug, PartialEq, Eq)]
pub enum List<T> {
    Nil,
    Cons(T, Box<List<T>>),
}

impl<T> List<T> {
    /// The elements, head first.
    pub open spec fn view_seq(self) -> Seq<T>
        decreases self,
    {
        match self {
            List::Nil => Seq::empty(),
            List::Cons(hd, tl) => seq![hd] + tl.view_seq(),
        }
    }

    pub open spec fn spec_len(self) -> nat
        decreases self,
    {
        match self {
            List::Nil => 0,
            List::Cons(_, tl) => 1 + tl.spec_len(),
        }
    }

    pub open spec fn spec_concat(self, other: List<T>) -> List<T>
        decreases self,
    {
        match self {
            List::Nil => other,
            List::Cons(hd, tl) => List::Cons(hd, Box::new(tl.spec_concat(other))),
        }
    }

    pub proof fn lemma_view_len(self)
        ensures
            self.view_seq().len() == self.spec_len(),
        decreases self,
    {
        if let List::Cons(_, tl) = self {
            tl.lemma_view_len();
        }
    }

    pub proof fn lemma_concat_view(self, other: List<T>)
        ensures
            self.spec_concat(other).view_seq() == self.view_seq() + other.view_seq(),
        decreases self,
    {
        if let List::Cons(hd, tl) = self {
            tl.lemma_concat_view(other);
            assert(seq![hd] + (tl.view_seq() + other.view_seq()) =~= (seq![hd] + tl.view_seq())
                + other.view_seq());
        } else {
            assert(Seq::<T>::empty() + other.view_seq() =~= other.view_seq());
        }
    }

    pub fn singleton(x: T) -> (r: List<T>)
        ensures
            r == List::Cons(x, Box::new(List::Nil)),
            r.view_seq() == seq![x],
    {
        proof {
            assert(List::<T>::Nil.view_seq() == Seq::<T>::empty());
            assert(seq![x] + Seq::<T>::empty() =~= seq![x]);
        }
        List::Cons(x, Box::new(List::Nil))
    }

    /// The elements of `self` followed by those of `other`.
    pub fn concat(self, other: List<T>) -> (r: List<T>)
        ensures
            r == self.spec_concat(other),
            r.view_seq() == self.view_seq() + other.view_seq(),
        decreases self,
    {
        proof {
            self.lemma_concat_view(other);
        }
        match self {
            List::Nil => other,
            List::Cons(hd, tl) => List::Cons(hd, Box::new((*tl).concat(other))),
        }
    }

    /// Builds a list holding the elements of `v` in the same order.
    pub fn from_vec(v: Vec<T>) -> (r: List<T>)
        ensures
            r.view_seq() == v@,
    {
        let mut v = v;
        let mut acc: List<T> = List::Nil;
        let ghost orig = v@;
        while v.len() > 0
            invariant
                orig == v@ + acc.view_seq(),
            decreases v.len(),
        {
            let x = v.pop().unwrap();
            proof {
                assert(orig =~= v@ + (seq![x] + acc.view_seq()));
            }
            acc = List::Cons(x, Box::new(acc));
        }
        proof {
            assert(v@ + acc.view_seq() =~= acc.view_seq());
        }
        acc
    }

    /// References to the elements, head first.
    pub fn iter(&self) -> (r: Vec<&T>)
        ensures
            r@.len() == self.view_seq().len(),
            forall|i: int| 0 <= i < r@.len() ==> *r@[i] == self.view_seq()[i],
    {
        let mut out: Vec<&T> = Vec::new();
        let mut cur = self;
        loop
            invariant
                self.view_seq() == out@.map_values(|x: &T| *x) + cur.view_seq(),
            ensures
                self.view_seq() == out@.map_values(|x: &T| *x),
            decreases cur.spec_len(),
        {
            match cur {
                List::Nil => {
                    proof {
                        assert(out@.map_values(|x: &T| *x) + Seq::<T>::empty() =~= out@.map_values(
                            |x: &T| *x,
                        ));
                    }
                    break ;
                },
                List::Cons(hd, tl) => {
                    proof {
                        assert(out@.push(hd).map_values(|x: &T| *x) =~= out@.map_values(
                            |x: &T| *x,
                        ).push(*hd));
                        assert(self.view_seq() =~= out@.push(hd).map_values(|x: &T| *x)
                            + tl.view_seq());
                    }
                    out.push(hd);
                    cur = &**tl;
                },
            }
        }
        proof {
            assert forall|i: int| 0 <= i < out@.len() implies *out@[i] == self.view_seq()[i] by {
                assert(out@.map_values(|x: &T| *x)[i] == *out@[i]);
            }
        }
        out
    }
}

} // verus!
