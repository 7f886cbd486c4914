//! Bounded forward scans: the first position of a window at which a
//! property holds.

use vstd::prelude::*;

verus! {

/// The first position `p` with `from <= p <= from + skip` at which `holds`,
/// or `None` where it holds at none of them.
pub open spec fn first_where(holds: spec_fn(int) -> bool, from: int, skip: nat) -> Option<int>
    decreases skip,
{
    if holds(from) {
        Some(from)
    } else if skip == 0 {
        None
    } else {
        first_where(holds, from + 1, (skip - 1) as nat)
    }
}

/// What `first_where` finds lies in the window, has the property, and has
/// no position with the property before it; where it finds nothing, no
/// position of the window has the property.
pub proof fn lemma_first_where(holds: spec_fn(int) -> bool, from: int, skip: nat)
    ensures
        match first_where(holds, from, skip) {
            Some(p) => {
                &&& from <= p <= from + skip
                &&& holds(p)
                &&& forall|q: int| from <= q < p ==> !#[trigger] holds(q)
            },
            None => forall|q: int| from <= q <= from + skip ==> !#[trigger] holds(q),
        },
    decreases skip,
{
    if !holds(from) && skip > 0 {
        lemma_first_where(holds, from + 1, (skip - 1) as nat);
    }
}

/// A position of the window that has the property, with none before it, is
/// what `first_where` finds.
pub proof fn lemma_first_where_found(holds: spec_fn(int) -> bool, from: int, skip: nat, p: int)
    requires
        from <= p <= from + skip,
        holds(p),
        forall|q: int| from <= q < p ==> !#[trigger] holds(q),
    ensures
        first_where(holds, from, skip) == Some(p),
{
    lemma_first_where(holds, from, skip);
}

/// Where no position of the window has the property, `first_where` finds
/// nothing.
pub proof fn lemma_first_where_none(holds: spec_fn(int) -> bool, from: int, skip: nat)
    requires
        forall|q: int| from <= q <= from + skip ==> !#[trigger] holds(q),
    ensures
        first_where(holds, from, skip) is None,
{
    lemma_first_where(holds, from, skip);
}

} // verus!
