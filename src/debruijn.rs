use vstd::prelude::*;

verus! {

/// A De Bruijn index: the number of recursive binders between a reference and
/// the binder it refers to (0 is the innermost).
#[derive(Debug, Copy, Clone, PartialEq, Eq, Structural, PartialOrd, Ord)]
pub struct Debruijn {
    pub index: u64,
}

impl Debruijn {
    pub open spec fn spec_index(self) -> u64 {
        self.index
    }

    pub fn new(index: u64) -> (r: Self)
        ensures
            r.spec_index() == index,
    {
        Self { index }
    }

    pub fn index(self) -> (r: u64)
        ensures
            r == self.spec_index(),
    {
        self.index
    }

    /// The index moved outward by `by` binders.
    pub fn shift_by(self, by: u64) -> (r: Self)
        requires
            self.spec_index() + by <= u64::MAX,
        ensures
            r.spec_index() == self.spec_index() + by,
    {
        Self { index: self.index + by }
    }
}

} // verus!
