//! Listing positions in a strict total order: there is only one such list.
use vstd::prelude::*;
use vstd::set_lib::{lemma_int_range, lemma_subset_equality, set_int_range};

verus! {

/// The positions of a list as integers.
pub open spec fn positions(order: Seq<usize>) -> Seq<int> {
    order.map_values(|p: usize| p as int)
}

/// `order` lists `n` positions below `n`, each coming `before` the next.
pub open spec fn lists_in_order(n: int, before: spec_fn(int, int) -> bool, order: Seq<usize>) -> bool {
    &&& order.len() == n
    &&& forall|k: int| 0 <= k < order.len() ==> order[k] < n
    &&& forall|a: int, b: int| 0 <= a < b < order.len() ==> before(order[a] as int, order[b] as int)
}

/// `before` orders the positions below `n` strictly and totally.
pub open spec fn strict_total_order(n: int, before: spec_fn(int, int) -> bool) -> bool {
    &&& forall|i: int| !#[trigger] before(i, i)
    &&& forall|i: int, j: int| #[trigger] before(i, j) ==> !before(j, i)
    &&& forall|i: int, j: int| 0 <= i < n && 0 <= j < n && i != j ==> #[trigger] before(i, j) || before(j, i)
}

/// Such a list holds every position below `n`.
pub proof fn lemma_lists_every_position(n: int, before: spec_fn(int, int) -> bool, order: Seq<usize>)
    requires
        strict_total_order(n, before),
        lists_in_order(n, before, order),
    ensures
        forall|k: int| 0 <= k < n ==> #[trigger] positions(order).contains(k),
{
    let ints = positions(order);
    assert(ints.no_duplicates()) by {
        assert forall|a: int, b: int| 0 <= a < ints.len() && 0 <= b < ints.len() && a != b implies ints[a]
            != ints[b] by {
            if a < b {
                assert(before(order[a] as int, order[b] as int));
            } else {
                assert(before(order[b] as int, order[a] as int));
            }
        }
    }
    ints.unique_seq_to_set();
    lemma_int_range(0, n);
    assert(ints.to_set().subset_of(set_int_range(0, n))) by {
        assert forall|x: int| ints.to_set().contains(x) implies set_int_range(0, n).contains(x) by {
            let k = choose|k: int| 0 <= k < ints.len() && ints[k] == x;
            assert(order[k] < n);
        }
    }
    assert(ints.to_set().finite()) by {
        vstd::set_lib::lemma_len_subset(ints.to_set(), set_int_range(0, n));
    }
    lemma_subset_equality(ints.to_set(), set_int_range(0, n));
    assert forall|k: int| 0 <= k < n implies ints.contains(k) by {
        assert(set_int_range(0, n).contains(k));
        assert(ints.to_set().contains(k));
    }
}

proof fn lemma_same_at(
    n: int,
    before: spec_fn(int, int) -> bool,
    first: Seq<usize>,
    second: Seq<usize>,
    p: int,
)
    requires
        strict_total_order(n, before),
        lists_in_order(n, before, first),
        lists_in_order(n, before, second),
        0 <= p < n,
        forall|i: int| 0 <= i < p ==> first[i] == second[i],
    ensures
        first[p] == second[p],
{
    lemma_lists_every_position(n, before, first);
    lemma_lists_every_position(n, before, second);
    let x = first[p];
    let y = second[p];
    if x != y {
        let f = positions(first);
        let s = positions(second);
        assert(s.contains(x as int));
        assert(f.contains(y as int));
        let r = choose|r: int| 0 <= r < f.len() && f[r] == y as int;
        let t = choose|t: int| 0 <= t < s.len() && s[t] == x as int;
        if r < p {
            assert(second[r] == y);
            assert(before(second[r] as int, second[p] as int));
        }
        if t < p {
            assert(first[t] == x);
            assert(before(first[t] as int, first[p] as int));
        }
        assert(r > p && t > p);
        assert(before(first[p] as int, first[r] as int));
        assert(before(second[p] as int, second[t] as int));
    }
}

proof fn lemma_prefix_same(
    n: int,
    before: spec_fn(int, int) -> bool,
    first: Seq<usize>,
    second: Seq<usize>,
    p: int,
)
    requires
        strict_total_order(n, before),
        lists_in_order(n, before, first),
        lists_in_order(n, before, second),
        0 <= p <= n,
    ensures
        forall|i: int| 0 <= i < p ==> first[i] == second[i],
    decreases p,
{
    if p > 0 {
        lemma_prefix_same(n, before, first, second, p - 1);
        lemma_same_at(n, before, first, second, p - 1);
    }
}

/// There is only one list of all positions below `n` in a strict total order.
pub proof fn lemma_order_unique(n: int, before: spec_fn(int, int) -> bool, first: Seq<usize>, second: Seq<usize>)
    requires
        strict_total_order(n, before),
        lists_in_order(n, before, first),
        lists_in_order(n, before, second),
    ensures
        first == second,
{
    lemma_prefix_same(n, before, first, second, n);
    assert(first =~= second);
}

} // verus!
