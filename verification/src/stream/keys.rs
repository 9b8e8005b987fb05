//! Facts about the integer keys the projector's maps are ordered by.
use vstd::prelude::*;

verus! {

/// `u32` keys obey the comparison laws that `BTreeMap`'s specification asks for.
pub proof fn lemma_u32_keys_totally_ordered()
    ensures
        vstd::laws_cmp::obeys_cmp::<u32>(),
{
    broadcast use vstd::laws_cmp::group_laws_cmp;

}

} // verus!
