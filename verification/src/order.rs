//! What it means to list items newest first, keeping items of equal date
//! in the order they came in.

use vstd::prelude::*;
use vstd::set_lib::{lemma_int_range, lemma_len_subset, lemma_subset_equality, set_int_range};

verus! {

/// Whether the item at position `a` goes before the item at position `b`:
/// it has the greater key, or the same key and the earlier position.
pub open spec fn precedes(keys: Seq<int>, a: int, b: int) -> bool {
    keys[a] > keys[b] || (keys[a] == keys[b] && a < b)
}

/// Whether `order` lists the positions of `keys` from the greatest key
/// down, positions of equal keys in ascending order.
pub open spec fn is_newest_first(keys: Seq<int>, order: Seq<int>) -> bool {
    &&& order.len() == keys.len()
    &&& forall|i: int| 0 <= i < order.len() ==> 0 <= #[trigger] order[i] < keys.len()
    &&& forall|i: int, j: int|
        0 <= i < j < order.len() ==> precedes(keys, #[trigger] order[i], #[trigger] order[j])
}

/// The items at the positions that `order` lists, in that order.
pub open spec fn arranged<T>(items: Seq<T>, order: Seq<int>) -> Seq<T> {
    Seq::new(order.len(), |i: int| items[order[i]])
}

/// A newest-first order is a permutation: it names every position, and
/// none twice. So the arranged items are the given items, each once.
pub proof fn lemma_newest_first_is_permutation(keys: Seq<int>, order: Seq<int>)
    requires
        is_newest_first(keys, order),
    ensures
        order.no_duplicates(),
        forall|k: int| 0 <= k < keys.len() ==> order.contains(k),
{
    // Of two places, one holds a position that precedes the other's: the
    // two positions differ.
    assert(order.no_duplicates());
    order.unique_seq_to_set();
    // So the order names as many positions as there are, all of them in
    // range: it names them all.
    let all = set_int_range(0, keys.len() as int);
    lemma_int_range(0, keys.len() as int);
    assert(order.to_set().subset_of(all));
    lemma_len_subset(order.to_set(), all);
    lemma_subset_equality(order.to_set(), all);
    assert forall|k: int| 0 <= k < keys.len() implies order.contains(k) by {
        assert(order.to_set().contains(k));
    }
}

/// Two newest-first orders of the same keys agree on their first `n`
/// places.
proof fn lemma_newest_first_agree(keys: Seq<int>, first: Seq<int>, second: Seq<int>, n: int)
    requires
        is_newest_first(keys, first),
        is_newest_first(keys, second),
        0 <= n <= keys.len(),
    ensures
        forall|i: int| 0 <= i < n ==> first[i] == second[i],
    decreases n,
{
    if n > 0 {
        lemma_newest_first_agree(keys, first, second, n - 1);
        let i = n - 1;
        if first[i] != second[i] {
            lemma_newest_first_is_permutation(keys, first);
            lemma_newest_first_is_permutation(keys, second);
            // Each of the two positions stands in the other order too, and
            // further back there, as the orders agree before place `i`. So
            // each position precedes the other, which cannot be.
            assert(second.contains(first[i]) && first.contains(second[i]));
            let j = choose|j: int| 0 <= j < second.len() && second[j] == first[i];
            let k = choose|k: int| 0 <= k < first.len() && first[k] == second[i];
            assert(j > i && k > i);
            assert(precedes(keys, second[i], second[j]) && precedes(keys, first[i], first[k]));
        }
    }
}

/// There is one newest-first order of given keys, and no other.
pub proof fn lemma_newest_first_unique(keys: Seq<int>, first: Seq<int>, second: Seq<int>)
    requires
        is_newest_first(keys, first),
        is_newest_first(keys, second),
    ensures
        first == second,
{
    lemma_newest_first_agree(keys, first, second, keys.len() as int);
}

} // verus!
