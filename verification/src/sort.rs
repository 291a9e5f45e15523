//! In-place ordering of instant sequences.

use vstd::prelude::*;
use vstd::relations::{sorted_by, total_ordering};
use vstd::seq_lib::group_to_multiset_ensures;

verus! {

/// A sequence of instants is in non-decreasing order.
pub open spec fn sorted(s: Seq<i64>) -> bool {
    forall|a: int, b: int| 0 <= a < b < s.len() ==> s[a] <= s[b]
}

/// The non-decreasing reordering of a sequence of instants. Together with
/// `lemma_sorted_permutation_equal` this is the unique sorted permutation.
pub open spec fn sorted_version(s: Seq<i64>) -> Seq<i64> {
    s.sort_by(|x: i64, y: i64| x <= y)
}

/// `sorted_version` is sorted and is a permutation of its input.
pub proof fn lemma_sorted_version_ensures(s: Seq<i64>)
    ensures
        sorted(sorted_version(s)),
        sorted_version(s).to_multiset() == s.to_multiset(),
        sorted_version(s).len() == s.len(),
{
    broadcast use group_to_multiset_ensures;

    let leq = |x: i64, y: i64| x <= y;
    assert(total_ordering(leq));
    s.lemma_sort_by_ensures(leq);
    assert(sorted_by(s.sort_by(leq), leq));
    assert forall|a: int, b: int|
        0 <= a < b < sorted_version(s).len() implies sorted_version(s)[a] <= sorted_version(
        s,
    )[b] by {
        assert(leq(sorted_version(s)[a], sorted_version(s)[b]));
    }
    assert(sorted_version(s).to_multiset() =~= s.to_multiset());
    assert(sorted_version(s).to_multiset().len() == sorted_version(s).len());
    assert(s.to_multiset().len() == s.len());
}

/// Two sorted sequences that hold the same instants, with the same
/// multiplicities, are the same sequence: the sorted permutation is unique.
pub proof fn lemma_sorted_permutation_equal(s: Seq<i64>, t: Seq<i64>)
    requires
        sorted(s),
        sorted(t),
        s.to_multiset() == t.to_multiset(),
    ensures
        s == t,
    decreases s.len(),
{
    broadcast use group_to_multiset_ensures;

    assert(s.to_multiset().len() == s.len());
    assert(t.to_multiset().len() == t.len());
    if s.len() == 0 {
        assert(s =~= t);
    } else {
        assert(s.len() == t.len());
        assert(s.contains(s[0]));
        assert(t.to_multiset().count(s[0]) > 0);
        assert(t.contains(s[0]));
        let j = choose|j: int| 0 <= j < t.len() && t[j] == s[0];
        assert(t[0] <= s[0]);
        assert(t.contains(t[0]));
        assert(s.to_multiset().count(t[0]) > 0);
        assert(s.contains(t[0]));
        let k = choose|k: int| 0 <= k < s.len() && s[k] == t[0];
        assert(s[0] <= t[0]);
        assert(s[0] == t[0]);
        assert forall|a: int, b: int|
            0 <= a < b < s.drop_first().len() implies s.drop_first()[a] <= s.drop_first()[b] by {
            assert(s.drop_first()[a] == s[a + 1]);
            assert(s.drop_first()[b] == s[b + 1]);
        }
        assert forall|a: int, b: int|
            0 <= a < b < t.drop_first().len() implies t.drop_first()[a] <= t.drop_first()[b] by {
            assert(t.drop_first()[a] == t[a + 1]);
            assert(t.drop_first()[b] == t[b + 1]);
        }
        assert(s.drop_first() =~= s.remove(0));
        assert(t.drop_first() =~= t.remove(0));
        assert(s.drop_first().to_multiset() == s.to_multiset().remove(s[0]));
        assert(t.drop_first().to_multiset() == t.to_multiset().remove(t[0]));
        lemma_sorted_permutation_equal(s.drop_first(), t.drop_first());
        assert forall|i: int| 0 <= i < s.len() implies s[i] == t[i] by {
            if i > 0 {
                assert(s.drop_first()[i - 1] == t.drop_first()[i - 1]);
            }
        }
        assert(s =~= t);
    }
}

/// Sorting a sequence that is already sorted gives back that very sequence.
pub proof fn lemma_sort_idempotent(s: Seq<i64>)
    requires
        sorted(s),
    ensures
        sorted_version(s) == s,
{
    lemma_sorted_version_ensures(s);
    lemma_sorted_permutation_equal(sorted_version(s), s);
}

/// Reorders the instants in place into non-decreasing order. The result is a
/// permutation of the input: no instant is added, removed, or altered.
pub fn insertion_sort(sort_by: &mut Vec<i64>)
    ensures
        sorted(final(sort_by)@),
        final(sort_by)@.to_multiset() == old(sort_by)@.to_multiset(),
        final(sort_by)@.len() == old(sort_by)@.len(),
        final(sort_by)@ == sorted_version(old(sort_by)@),
{
    broadcast use group_to_multiset_ensures;

    let n = sort_by.len();
    let mut index: usize = 1;
    while index < n
        invariant
            sort_by@.len() == n,
            n == old(sort_by)@.len(),
            1 <= index,
            sort_by@.to_multiset() == old(sort_by)@.to_multiset(),
            forall|a: int, b: int| 0 <= a < b < index && b < n ==> sort_by@[a] <= sort_by@[b],
        decreases n - index,
    {
        let current = sort_by[index];
        let mut swap_index: usize = index;
        proof {
            assert(sort_by@.update(swap_index as int, current) =~= sort_by@);
        }
        while swap_index > 0 && current <= sort_by[swap_index - 1]
            invariant
                sort_by@.len() == n,
                n == old(sort_by)@.len(),
                swap_index <= index < n,
                sort_by@.update(swap_index as int, current).to_multiset() == old(
                    sort_by,
                )@.to_multiset(),
                forall|a: int, b: int|
                    0 <= a < b <= index && a != swap_index && b != swap_index ==> sort_by@[a]
                        <= sort_by@[b],
                forall|k: int| swap_index < k <= index ==> current <= #[trigger] sort_by@[k],
            decreases swap_index,
        {
            let ghost before = sort_by@;
            let shifted = sort_by[swap_index - 1];
            sort_by.set(swap_index, shifted);
            swap_index = swap_index - 1;
            proof {
                broadcast use group_to_multiset_ensures;
                broadcast use vstd::multiset::group_multiset_axioms;

                assert(sort_by@.update(swap_index as int, current).to_multiset() == before.update(
                    swap_index + 1,
                    current,
                ).to_multiset()) by {
                    assert(before.contains(before[swap_index + 1]));
                    assert(before.to_multiset().count(before[swap_index + 1]) > 0);
                    assert(sort_by@ == before.update(swap_index + 1, before[swap_index as int]));
                    assert(sort_by@.update(swap_index as int, current).to_multiset()
                        =~= before.update(swap_index + 1, current).to_multiset());
                }
            }
        }
        sort_by.set(swap_index, current);
        index = index + 1;
    }
    proof {
        lemma_sorted_version_ensures(old(sort_by)@);
        lemma_sorted_permutation_equal(sort_by@, sorted_version(old(sort_by)@));
    }
}

} // verus!
