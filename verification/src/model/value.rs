use vstd::prelude::*;

verus! {

/// The position of a secret key share (and of the signature shares it makes)
/// within a threshold key set.
#[derive(Clone, Copy, PartialEq, Eq, Structural, Debug)]
pub struct ShareIndex(usize);

impl View for ShareIndex {
    type V = usize;

    closed spec fn view(&self) -> usize {
        self.0
    }
}

/// Share indices are equal exactly when their positions are.
pub proof fn lemma_share_index_eq(a: ShareIndex, b: ShareIndex)
    ensures
        (a == b) <==> (a@ == b@),
{
}

impl ShareIndex {
    /// Wraps a raw share position.
    pub fn new(index: usize) -> (r: Self)
        ensures
            r@ == index,
    {
        Self(index)
    }

    /// The raw share position.
    pub fn get(&self) -> (r: usize)
        ensures
            r == self@,
    {
        self.0
    }
}

} // verus!
