//! Spec-level view of the position store.
//!
//! The ledger keeps its open positions as a sequence of entries, one per
//! trader, with pairwise-distinct trader identities.  These functions give
//! the contracts their vocabulary — key lookup and the aggregate notional of
//! each side — and the lemmas relate both to pushing and removing entries.

use vstd::prelude::*;
use crate::position::Position;

verus! {

/// One stored entry: a trader identity and that trader's open position.
pub type Entry = (u64, Position);

/// The trader identities of the entries are pairwise distinct.
pub open spec fn keys_unique(s: Seq<Entry>) -> bool {
    forall|i: int, j: int| 0 <= i < j < s.len() ==> (#[trigger] s[i]).0 != (#[trigger] s[j]).0
}

/// Some entry carries the identity `k`.
pub open spec fn has_key(s: Seq<Entry>, k: u64) -> bool {
    exists|i: int| 0 <= i < s.len() && (#[trigger] s[i]).0 == k
}

/// Index of the entry carrying `k`; meaningful only when `has_key` holds.
pub open spec fn index_of(s: Seq<Entry>, k: u64) -> int {
    choose|i: int| 0 <= i < s.len() && (#[trigger] s[i]).0 == k
}

/// The position stored under `k`; meaningful only when `has_key` holds.
pub open spec fn position_of(s: Seq<Entry>, k: u64) -> Position {
    s[index_of(s, k)].1
}

/// What one entry contributes to the aggregate notional of a side: its
/// collateral if it sits on that side, nothing otherwise.
pub open spec fn side_value(e: Entry, long: bool) -> int {
    if e.1.long == long {
        e.1.value as int
    } else {
        0
    }
}

/// Aggregate notional of one side: the sum of `side_value` over all entries.
pub open spec fn side_sum(s: Seq<Entry>, long: bool) -> int
    decreases s.len(),
{
    if s.len() == 0 {
        0
    } else {
        side_sum(s.drop_last(), long) + side_value(s.last(), long)
    }
}

/// A lookup that found `k` at index `i` pins down `index_of`, provided the
/// keys are distinct.
pub proof fn lemma_found_index(s: Seq<Entry>, k: u64, i: int)
    requires
        keys_unique(s),
        0 <= i < s.len(),
        s[i].0 == k,
    ensures
        has_key(s, k),
        index_of(s, k) == i,
        position_of(s, k) == s[i].1,
{
    assert(has_key(s, k));
    let j = index_of(s, k);
    assert(0 <= j < s.len() && s[j].0 == k);
    if i != j {
        assert(s[i].0 != s[j].0);
    }
}

/// When `has_key` holds, `index_of` names a real entry carrying `k`.
pub proof fn lemma_index_of_in_range(s: Seq<Entry>, k: u64)
    requires
        has_key(s, k),
    ensures
        0 <= index_of(s, k) < s.len(),
        s[index_of(s, k)].0 == k,
{
}

/// Appending an entry adds its contribution to each side's sum.
pub proof fn lemma_side_sum_push(s: Seq<Entry>, e: Entry, long: bool)
    ensures
        side_sum(s.push(e), long) == side_sum(s, long) + side_value(e, long),
{
    assert(s.push(e).drop_last() =~= s);
    assert(s.push(e).last() == e);
}

/// Removing the entry at `i` subtracts its contribution from each side's sum.
pub proof fn lemma_side_sum_remove(s: Seq<Entry>, i: int, long: bool)
    requires
        0 <= i < s.len(),
    ensures
        side_sum(s.remove(i), long) == side_sum(s, long) - side_value(s[i], long),
    decreases s.len(),
{
    if i == s.len() - 1 {
        assert(s.remove(i) =~= s.drop_last());
    } else {
        let t = s.remove(i);
        assert(t.last() == s.last());
        assert(t.drop_last() =~= s.drop_last().remove(i));
        lemma_side_sum_remove(s.drop_last(), i, long);
    }
}

/// With every stored collateral nonnegative, each side's sum is nonnegative.
pub proof fn lemma_side_sum_nonneg(s: Seq<Entry>, long: bool)
    requires
        forall|i: int| 0 <= i < s.len() ==> (#[trigger] s[i]).1.value >= 0,
    ensures
        side_sum(s, long) >= 0,
    decreases s.len(),
{
    if s.len() > 0 {
        lemma_side_sum_nonneg(s.drop_last(), long);
    }
}

/// Removing an entry keeps the remaining keys distinct, drops its own key,
/// and leaves every other key bound to the same position.
pub proof fn lemma_remove_key(s: Seq<Entry>, i: int)
    requires
        keys_unique(s),
        0 <= i < s.len(),
    ensures
        keys_unique(s.remove(i)),
        !has_key(s.remove(i), s[i].0),
        forall|k: u64| k != s[i].0 ==> has_key(s.remove(i), k) == has_key(s, k),
        forall|k: u64|
            k != s[i].0 && has_key(s, k) ==> position_of(s.remove(i), k) == position_of(s, k),
{
    let t = s.remove(i);
    assert forall|j: int| 0 <= j < t.len() implies (#[trigger] t[j]).0 != s[i].0 by {
        if j < i {
            assert(t[j] == s[j]);
        } else {
            assert(t[j] == s[j + 1]);
        }
    }
    assert forall|k: u64| k != s[i].0 && has_key(s, k) implies has_key(t, k)
        && position_of(t, k) == position_of(s, k) by {
        let j = index_of(s, k);
        lemma_index_of_in_range(s, k);
        if j < i {
            assert(t[j] == s[j]);
            lemma_found_index(t, k, j);
        } else {
            assert(t[j - 1] == s[j]);
            lemma_found_index(t, k, j - 1);
        }
    }
    assert forall|k: u64| k != s[i].0 && has_key(t, k) implies has_key(s, k) by {
        let j = index_of(t, k);
        lemma_index_of_in_range(t, k);
        if j < i {
            assert(s[j] == t[j]);
        } else {
            assert(s[j + 1] == t[j]);
        }
    }
}

/// A key present among entries with distinct keys contributes its collateral
/// to its side's sum; the sum is at least that contribution when every other
/// collateral is nonnegative.
pub proof fn lemma_side_sum_member_bound(s: Seq<Entry>, k: u64)
    requires
        keys_unique(s),
        has_key(s, k),
        forall|i: int| 0 <= i < s.len() ==> (#[trigger] s[i]).1.value >= 0,
    ensures
        side_sum(s, position_of(s, k).long) >= position_of(s, k).value,
{
    let i = index_of(s, k);
    lemma_index_of_in_range(s, k);
    let p = position_of(s, k);
    lemma_side_sum_remove(s, i, p.long);
    lemma_side_sum_nonneg(s.remove(i), p.long);
    assert(side_value(s[i], p.long) == p.value);
}

} // verus!
