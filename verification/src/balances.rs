//! The sum of a table of balances, and how it moves when one entry changes.

use vstd::prelude::*;

verus! {

/// The sum of all the values of a finite table.
pub open spec fn total_of(m: Map<u64, int>) -> int
    decreases m.dom().len(),
    when m.dom().finite()
{
    if m.dom().len() == 0 {
        0
    } else {
        let k = m.dom().choose();
        m[k] + total_of(m.remove(k))
    }
}

/// What a table holds for `id`: an absent entry counts as zero.
pub open spec fn entry_or_zero(m: Map<u64, int>, id: u64) -> int {
    if m.contains_key(id) {
        m[id]
    } else {
        0
    }
}

/// Any one entry can be split off the sum, not only the chosen one.
pub proof fn lemma_total_split(m: Map<u64, int>, id: u64)
    requires
        m.dom().finite(),
        m.contains_key(id),
    ensures
        total_of(m) == m[id] + total_of(m.remove(id)),
    decreases m.dom().len(),
{
    let k = m.dom().choose();
    if k != id {
        let rest = m.remove(k);
        lemma_total_split(rest, id);
        let other = m.remove(id);
        assert(other.contains_key(k));
        lemma_total_split(other, k);
        assert(rest.remove(id) =~= other.remove(k));
    }
}

/// Writing `value` at `id` moves the sum by the difference to what stood there.
pub proof fn lemma_total_insert(m: Map<u64, int>, id: u64, value: int)
    requires
        m.dom().finite(),
    ensures
        total_of(m.insert(id, value)) == total_of(m) - entry_or_zero(m, id) + value,
{
    let after = m.insert(id, value);
    lemma_total_split(after, id);
    assert(after.remove(id) =~= m.remove(id));
    if m.contains_key(id) {
        lemma_total_split(m, id);
    } else {
        assert(m.remove(id) =~= m);
    }
}

/// In a table without negative entries no entry exceeds the sum.
pub proof fn lemma_entry_at_most_total(m: Map<u64, int>, id: u64)
    requires
        m.dom().finite(),
        forall|k: u64| m.contains_key(k) ==> m[k] >= 0,
    ensures
        0 <= entry_or_zero(m, id) <= total_of(m),
    decreases m.dom().len(),
{
    if m.dom().len() == 0 {
        assert(!m.contains_key(id));
    } else if m.contains_key(id) {
        lemma_total_split(m, id);
        lemma_total_nonnegative(m.remove(id));
    } else {
        lemma_total_nonnegative(m);
    }
}

/// A table without negative entries has a non-negative sum.
pub proof fn lemma_total_nonnegative(m: Map<u64, int>)
    requires
        m.dom().finite(),
        forall|k: u64| m.contains_key(k) ==> m[k] >= 0,
    ensures
        0 <= total_of(m),
    decreases m.dom().len(),
{
    if m.dom().len() != 0 {
        let k = m.dom().choose();
        lemma_total_nonnegative(m.remove(k));
    }
}

} // verus!
