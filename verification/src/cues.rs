//! The seek index: a table of cues ordered by timestamp, and the lookup
//! that resolves a seek.

use vstd::prelude::*;
use crate::formats::Cue;

verus! {

/// Timestamps never decrease along the table.
pub open spec fn cues_ordered(cues: Seq<Cue>) -> bool {
    forall|i: int, j: int| 0 <= i <= j < cues.len() ==> cues[i].start_ts <= cues[j].start_ts
}

/// The index of the last cue whose timestamp is at or before `ts`; `None`
/// where every cue lies after `ts`, and in an empty table.
pub open spec fn seek_cue(cues: Seq<Cue>, ts: u64) -> Option<int>
    decreases cues.len(),
{
    if cues.len() == 0 {
        None
    } else if cues.last().start_ts <= ts {
        Some(cues.len() - 1)
    } else {
        seek_cue(cues.drop_last(), ts)
    }
}

/// The cue that `seek_cue` names lies at or before `ts`, and every cue
/// behind it lies after `ts`; where it names none, every cue lies after
/// `ts`.
pub proof fn lemma_seek_cue(cues: Seq<Cue>, ts: u64)
    ensures
        match seek_cue(cues, ts) {
            Some(i) => {
                &&& 0 <= i < cues.len()
                &&& cues[i].start_ts <= ts
                &&& forall|j: int| i < j < cues.len() ==> cues[j].start_ts > ts
            },
            None => forall|j: int| 0 <= j < cues.len() ==> cues[j].start_ts > ts,
        },
    decreases cues.len(),
{
    if cues.len() > 0 && cues.last().start_ts > ts {
        let front = cues.drop_last();
        lemma_seek_cue(front, ts);
        assert forall|j: int| 0 <= j < front.len() implies front[j] == cues[j] by {}
    }
}

/// In an ordered table, the cue that a seek resolves to carries the
/// greatest timestamp at or before the target: no cue at or before the
/// target is later than it.
pub proof fn lemma_seek_cue_is_greatest(cues: Seq<Cue>, ts: u64, k: int)
    requires
        cues_ordered(cues),
        0 <= k < cues.len(),
        cues[k].start_ts <= ts,
    ensures
        seek_cue(cues, ts) matches Some(i) && k <= i && cues[k].start_ts <= cues[i].start_ts,
{
    lemma_seek_cue(cues, ts);
}

/// A seek resolves to no cue exactly when no cue lies at or before the
/// target; in particular, never in an empty table.
pub proof fn lemma_seek_cue_none(cues: Seq<Cue>, ts: u64)
    ensures
        seek_cue(cues, ts) is None <==> (forall|j: int|
            0 <= j < cues.len() ==> cues[j].start_ts > ts),
        cues.len() == 0 ==> seek_cue(cues, ts) is None,
{
    lemma_seek_cue(cues, ts);
}

/// Whether the timestamps never decrease along the table.
pub fn check_ordered(cues: &[Cue]) -> (r: bool)
    ensures
        r == cues_ordered(cues@),
{
    if cues.len() < 2 {
        return true;
    }
    let mut i: usize = 1;
    while i < cues.len()
        invariant
            1 <= i <= cues.len(),
            forall|a: int, b: int| 0 <= a <= b < i ==> cues@[a].start_ts <= cues@[b].start_ts,
        decreases cues.len() - i,
    {
        if cues[i - 1].start_ts > cues[i].start_ts {
            return false;
        }
        i += 1;
    }
    true
}

/// Resolves a seek in an ordered table: the index of the last cue at or
/// before `ts`, found by bisection.
pub fn find_cue(cues: &[Cue], ts: u64) -> (r: Option<usize>)
    requires
        cues_ordered(cues@),
    ensures
        match r {
            Some(i) => seek_cue(cues@, ts) == Some(i as int),
            None => seek_cue(cues@, ts) is None,
        },
{
    let mut low: usize = 0;
    let mut high: usize = cues.len();
    while low < high
        invariant
            low <= high <= cues.len(),
            cues_ordered(cues@),
            forall|j: int| 0 <= j < low ==> cues@[j].start_ts <= ts,
            forall|j: int| high <= j < cues.len() ==> cues@[j].start_ts > ts,
        decreases high - low,
    {
        let mid: usize = low + (high - low) / 2;
        if cues[mid].start_ts <= ts {
            low = mid + 1;
        } else {
            high = mid;
        }
    }
    proof {
        lemma_seek_cue(cues@, ts);
        if low > 0 {
            assert(cues@[low - 1].start_ts <= ts);
        }
        if let Some(i) = seek_cue(cues@, ts) {
            assert(cues@[i].start_ts <= ts);
        }
    }
    if low == 0 {
        None
    } else {
        Some(low - 1)
    }
}

} // verus!
