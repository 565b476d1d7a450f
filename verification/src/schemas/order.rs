//! The order of the indexes that key the maps read from the data files.
use vstd::prelude::*;

verus! {

/// Indexes compare the way an ordered map needs its keys to.
pub proof fn lemma_index_order()
    ensures
        vstd::laws_cmp::obeys_cmp::<usize>(),
{
    broadcast use vstd::laws_cmp::group_laws_cmp;

}

} // verus!
