//! The sync pattern that opens every MPEG audio frame, and the bounded
//! search for it.

use vstd::prelude::*;
use crate::scan::{first_where, lemma_first_where_found, lemma_first_where_none};

verus! {

/// The farthest that a reader skips forward in search of a sync pattern.
pub const MAX_RESYNC_DISTANCE: usize = 8192;

/// Whether a frame may start at `at`: a byte with all bits set, followed by
/// a byte whose three highest bits are set.
pub open spec fn is_sync_at(data: Seq<u8>, at: int) -> bool {
    &&& 0 <= at
    &&& at + 1 < data.len()
    &&& data[at] == 0xFF
    &&& data[at + 1] >= 0xE0
}

/// The first position from `from` on, at most `skip` bytes later, at which
/// a frame may start.
pub open spec fn first_sync(data: Seq<u8>, from: int, skip: nat) -> Option<int> {
    first_where(|p: int| is_sync_at(data, p), from, skip)
}

/// Whether a frame may start at `at`.
pub fn sync_at(data: &[u8], at: usize) -> (r: bool)
    ensures
        r == is_sync_at(data@, at as int),
{
    if at >= data.len() || data.len() - at < 2 {
        return false;
    }
    data[at] == 0xFF && data[at + 1] >= 0xE0
}

/// Looks for the first position from `from` on, at most `skip` bytes later,
/// at which a frame may start.
pub fn find_sync(data: &[u8], from: usize, skip: usize) -> (r: Option<usize>)
    ensures
        match r {
            Some(p) => first_sync(data@, from as int, skip as nat) == Some(p as int),
            None => first_sync(data@, from as int, skip as nat) is None,
        },
{
    let ghost holds = |p: int| is_sync_at(data@, p);
    if from >= data.len() {
        proof {
            lemma_first_where_none(holds, from as int, skip as nat);
        }
        return None;
    }
    // No frame starts at the last byte, so the search ends one before it.
    let room: usize = data.len() - from - 1;
    let last: usize = if skip < room {
        skip
    } else {
        room
    };
    let mut k: usize = 0;
    while k <= last
        invariant
            from < data.len(),
            room == data.len() - from - 1,
            last <= skip,
            last <= room,
            k <= last + 1,
            holds == (|p: int| is_sync_at(data@, p)),
            forall|q: int| from <= q < from + k ==> !#[trigger] holds(q),
        decreases last + 1 - k,
    {
        if sync_at(data, from + k) {
            proof {
                lemma_first_where_found(holds, from as int, skip as nat, (from + k) as int);
            }
            return Some(from + k);
        }
        k += 1;
    }
    proof {
        assert forall|q: int| from <= q <= from + skip implies !#[trigger] holds(q) by {
            if q >= from + k {
                assert(q + 1 >= data@.len());
            }
        }
        lemma_first_where_none(holds, from as int, skip as nat);
    }
    None
}

} // verus!
