//! Ordered key sequences, as `BTreeMap` iteration yields them.
use vstd::prelude::*;

use vstd::std_specs::btree::increasing_seq;
use vstd::std_specs::cmp::OrdSpec;

verus! {

broadcast use vstd::std_specs::btree::group_btree_axioms, vstd::laws_cmp::group_laws_cmp;

/// Keys that a `BTreeMap` yields in increasing order are strictly increasing
/// integers.
pub proof fn lemma_increasing_keys(keys: Seq<usize>)
    requires
        increasing_seq(keys),
    ensures
        forall|j: int, k: int| 0 <= j < k < keys.len() ==> keys[j] < keys[k],
{
    assert forall|j: int, k: int| 0 <= j < k < keys.len() implies keys[j] < keys[k] by {
        assert(keys[j].cmp_spec(&keys[k]) is Less);
    }
}

} // verus!
