//! Ranks in the high-score list. The list itself is kept by a store outside
//! this library, ordered by score with the best first; a rank is a position
//! in it, counted from 1.

use vstd::prelude::*;

verus! {

/// How many entries stand before the entry of a rank: one less than the
/// rank. Rank 0 is no rank, and a rank whose offset does not fit in 32 bits
/// is beyond what the store can be asked for.
pub open spec fn offset_of_rank(rank: int) -> Option<u32> {
    if 1 <= rank && rank - 1 <= u32::MAX {
        Some((rank - 1) as u32)
    } else {
        None
    }
}

/// The number of entries to skip to reach the entry of `rank`.
pub fn rank_offset(rank: usize) -> (r: Option<u32>)
    ensures
        r == offset_of_rank(rank as int),
{
    if rank == 0 {
        return None;
    }
    let before: usize = rank - 1;
    if before > u32::MAX as usize {
        None
    } else {
        Some(before as u32)
    }
}

} // verus!
