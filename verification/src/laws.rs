//! Order-independence and minimality laws of the aggregation folds.
//!
//! The aggregator's contracts pin each statistic to a left fold over the
//! input sequence. The proofs here say what those folds mean independently of
//! order: the count is positive exactly when the item occurs, the total is
//! the clamped exact sum, the sentinel-folded minimum really is the least
//! unit buyout, and all three are unchanged by any permutation of the input.

use vstd::prelude::*;
use crate::listing::{
    aggregate_matches, count_for, has_unit_price, min_buyout_for, total_for, unit_price,
    AuctionListing, ItemAggregate,
};

verus! {

/// The predicate selecting the listings of one item.
pub open spec fn sells_item(item: i64) -> spec_fn(AuctionListing) -> bool {
    |l: AuctionListing| l.item_id == item
}

/// The count fold is literally the number of matching listings: the length
/// of the subsequence of `s` whose listings carry the item.
pub proof fn lemma_count_for_is_filtered_len(s: Seq<AuctionListing>, item: i64)
    ensures
        count_for(s, item) == s.filter(sells_item(item)).len(),
    decreases s.len(),
{
    reveal(Seq::filter);
    if s.len() > 0 {
        lemma_count_for_is_filtered_len(s.drop_last(), item);
    }
}

/// Exact (unsaturated) sum of `quantity` over the listings in `s` for `item`.
pub open spec fn sum_quantities_for(s: Seq<AuctionListing>, item: i64) -> int
    decreases s.len(),
{
    if s.len() == 0 {
        0
    } else {
        sum_quantities_for(s.drop_last(), item) + if s.last().item_id == item {
            s.last().quantity as int
        } else {
            0int
        }
    }
}

/// When no quantity for the item is negative, the saturating fold equals the
/// exact sum clamped from above at the largest representable value.
pub proof fn lemma_total_is_clamped_sum(s: Seq<AuctionListing>, item: i64)
    requires
        forall|i: int|
            0 <= i < s.len() && s[i].item_id == item ==> #[trigger] s[i].quantity >= 0,
    ensures
        sum_quantities_for(s, item) >= 0,
        total_for(s, item) == if sum_quantities_for(s, item) > i64::MAX {
            i64::MAX as int
        } else {
            sum_quantities_for(s, item)
        },
    decreases s.len(),
{
    if s.len() > 0 {
        assert forall|i: int|
            0 <= i < s.drop_last().len() && s.drop_last()[i].item_id == item
                implies #[trigger] s.drop_last()[i].quantity >= 0 by {
            assert(s[i].quantity >= 0);
        }
        lemma_total_is_clamped_sum(s.drop_last(), item);
        if s.last().item_id == item {
            assert(s[s.len() - 1].quantity >= 0);
        }
    }
}

/// Removing one listing takes exactly its contribution out of the count.
proof fn lemma_count_for_remove(s: Seq<AuctionListing>, i: int, item: i64)
    requires
        0 <= i < s.len(),
    ensures
        count_for(s.remove(i), item) == count_for(s, item) - if s[i].item_id == item {
            1int
        } else {
            0int
        },
    decreases s.len(),
{
    if i == s.len() - 1 {
        assert(s.remove(i) =~= s.drop_last());
    } else {
        lemma_count_for_remove(s.drop_last(), i, item);
        assert(s.remove(i).drop_last() =~= s.drop_last().remove(i));
        assert(s.remove(i).last() == s.last());
    }
}

/// Removing one listing takes exactly its contribution out of the exact sum.
proof fn lemma_sum_quantities_remove(s: Seq<AuctionListing>, i: int, item: i64)
    requires
        0 <= i < s.len(),
    ensures
        sum_quantities_for(s.remove(i), item) == sum_quantities_for(s, item)
            - if s[i].item_id == item {
            s[i].quantity as int
        } else {
            0int
        },
    decreases s.len(),
{
    if i == s.len() - 1 {
        assert(s.remove(i) =~= s.drop_last());
    } else {
        lemma_sum_quantities_remove(s.drop_last(), i, item);
        assert(s.remove(i).drop_last() =~= s.drop_last().remove(i));
        assert(s.remove(i).last() == s.last());
    }
}

/// Sequences with equal multisets pair every element of one with an equal
/// element of the other; a property of every element of `s1` then holds of
/// every element of `s2`.
pub proof fn lemma_elements_transfer(
    s1: Seq<AuctionListing>,
    s2: Seq<AuctionListing>,
    p: spec_fn(AuctionListing) -> bool,
)
    requires
        s1.to_multiset() == s2.to_multiset(),
        forall|i: int| 0 <= i < s1.len() ==> #[trigger] p(s1[i]),
    ensures
        forall|i: int| 0 <= i < s2.len() ==> #[trigger] p(s2[i]),
{
    broadcast use vstd::seq_lib::group_to_multiset_ensures;

    assert forall|i: int| 0 <= i < s2.len() implies #[trigger] p(s2[i]) by {
        assert(s2.contains(s2[i]));
        assert(s1.to_multiset().count(s2[i]) > 0);
        assert(s1.contains(s2[i]));
        let j = choose|j: int| 0 <= j < s1.len() && s1[j] == s2[i];
        assert(p(s1[j]));
    }
}

/// Core peeling step shared by the permutation proofs: sequences with equal
/// multisets either are both empty, or the last element of `s2` occurs at
/// some index of `s1`, and dropping it from both sides leaves equal multisets.
proof fn lemma_peel_last(s1: Seq<AuctionListing>, s2: Seq<AuctionListing>) -> (i: int)
    requires
        s1.to_multiset() == s2.to_multiset(),
        s2.len() > 0,
    ensures
        0 <= i < s1.len(),
        s1[i] == s2.last(),
        s1.remove(i).to_multiset() == s2.drop_last().to_multiset(),
        s1.len() == s2.len(),
{
    broadcast use vstd::seq_lib::group_to_multiset_ensures;
    broadcast use vstd::multiset::group_multiset_axioms;

    assert(s1.len() == s1.to_multiset().len());
    assert(s2.len() == s2.to_multiset().len());
    let x = s2.last();
    assert(s2[s2.len() - 1] == x);
    assert(s2.contains(x));
    assert(s1.to_multiset().count(x) > 0);
    assert(s1.contains(x));
    let i = choose|i: int| 0 <= i < s1.len() && s1[i] == x;
    assert(s1.remove(i).to_multiset() == s1.to_multiset().remove(x));
    assert(s2 =~= s2.drop_last().push(x));
    assert(s2.drop_last().push(x).to_multiset() =~= s2.drop_last().to_multiset().insert(x));
    assert(s1.remove(i).to_multiset() =~= s2.drop_last().to_multiset());
    i
}

/// The per-item listing count is invariant under permutation of the input.
pub proof fn lemma_count_for_permutation(
    s1: Seq<AuctionListing>,
    s2: Seq<AuctionListing>,
    item: i64,
)
    requires
        s1.to_multiset() == s2.to_multiset(),
    ensures
        count_for(s1, item) == count_for(s2, item),
    decreases s2.len(),
{
    broadcast use vstd::seq_lib::group_to_multiset_ensures;

    if s2.len() == 0 {
        assert(s1.len() == s1.to_multiset().len());
    } else {
        let i = lemma_peel_last(s1, s2);
        lemma_count_for_permutation(s1.remove(i), s2.drop_last(), item);
        lemma_count_for_remove(s1, i, item);
    }
}

/// The exact per-item quantity sum is invariant under permutation.
proof fn lemma_sum_quantities_permutation(
    s1: Seq<AuctionListing>,
    s2: Seq<AuctionListing>,
    item: i64,
)
    requires
        s1.to_multiset() == s2.to_multiset(),
    ensures
        sum_quantities_for(s1, item) == sum_quantities_for(s2, item),
    decreases s2.len(),
{
    broadcast use vstd::seq_lib::group_to_multiset_ensures;

    if s2.len() == 0 {
        assert(s1.len() == s1.to_multiset().len());
    } else {
        let i = lemma_peel_last(s1, s2);
        lemma_sum_quantities_permutation(s1.remove(i), s2.drop_last(), item);
        lemma_sum_quantities_remove(s1, i, item);
    }
}

/// When no quantity for the item is negative, the saturating total is
/// invariant under permutation of the input.
pub proof fn lemma_total_for_permutation(
    s1: Seq<AuctionListing>,
    s2: Seq<AuctionListing>,
    item: i64,
)
    requires
        s1.to_multiset() == s2.to_multiset(),
        forall|i: int|
            0 <= i < s1.len() && s1[i].item_id == item ==> #[trigger] s1[i].quantity >= 0,
    ensures
        total_for(s1, item) == total_for(s2, item),
{
    lemma_elements_transfer(s1, s2, |l: AuctionListing| l.item_id == item ==> l.quantity >= 0);
    assert forall|i: int|
        0 <= i < s2.len() && s2[i].item_id == item implies #[trigger] s2[i].quantity >= 0 by {
        let p = |l: AuctionListing| l.item_id == item ==> l.quantity >= 0;
        assert(p(s2[i]));
    }
    lemma_total_is_clamped_sum(s1, item);
    lemma_total_is_clamped_sum(s2, item);
    lemma_sum_quantities_permutation(s1, s2, item);
}

/// When every priced listing for the item has a unit buyout of at least 1,
/// the sentinel fold really computes the minimum: it is 0 exactly when no
/// listing for the item carries a buyout, and otherwise it is a unit buyout
/// attained by some listing and a lower bound on all of them.
pub proof fn lemma_min_buyout_is_minimum(s: Seq<AuctionListing>, item: i64)
    requires
        forall|i: int|
            0 <= i < s.len() && #[trigger] s[i].item_id == item && has_unit_price(s[i])
                ==> unit_price(s[i]) >= 1,
    ensures
        (exists|i: int|
            0 <= i < s.len() && #[trigger] s[i].item_id == item && has_unit_price(s[i])) ==> {
            &&& min_buyout_for(s, item) >= 1
            &&& exists|i: int|
                0 <= i < s.len() && #[trigger] s[i].item_id == item && has_unit_price(s[i])
                    && unit_price(s[i]) == min_buyout_for(s, item)
            &&& forall|i: int|
                0 <= i < s.len() && #[trigger] s[i].item_id == item && has_unit_price(s[i])
                    ==> unit_price(s[i]) >= min_buyout_for(s, item)
        },
        (forall|i: int|
            0 <= i < s.len() ==> !(#[trigger] s[i].item_id == item && has_unit_price(s[i])))
            ==> min_buyout_for(s, item) == 0,
    decreases s.len(),
{
    if s.len() > 0 {
        let pre = s.drop_last();
        assert forall|i: int|
            0 <= i < pre.len() && #[trigger] pre[i].item_id == item && has_unit_price(pre[i])
                implies unit_price(pre[i]) >= 1 by {
            assert(s[i].item_id == item && has_unit_price(s[i]));
        }
        lemma_min_buyout_is_minimum(pre, item);
        let l = s.last();
        assert(s[s.len() - 1] == l);
        if exists|i: int|
            0 <= i < s.len() && #[trigger] s[i].item_id == item && has_unit_price(s[i]) {
            if l.item_id == item && has_unit_price(l) {
                assert(unit_price(s[s.len() - 1]) >= 1);
                if exists|i: int|
                    0 <= i < pre.len() && #[trigger] pre[i].item_id == item
                        && has_unit_price(pre[i]) {
                    let w = choose|i: int|
                        0 <= i < pre.len() && #[trigger] pre[i].item_id == item
                            && has_unit_price(pre[i]) && unit_price(pre[i]) == min_buyout_for(
                            pre,
                            item,
                        );
                    if min_buyout_for(s, item) == min_buyout_for(pre, item) {
                        assert(s[w].item_id == item && has_unit_price(s[w]) && unit_price(s[w])
                            == min_buyout_for(s, item));
                    }
                } else {
                    assert(min_buyout_for(pre, item) == 0);
                }
                assert forall|i: int|
                    0 <= i < s.len() && #[trigger] s[i].item_id == item && has_unit_price(s[i])
                        implies unit_price(s[i]) >= min_buyout_for(s, item) by {
                    if i < s.len() - 1 {
                        assert(pre[i].item_id == item && has_unit_price(pre[i]));
                    }
                }
            } else {
                let e = choose|i: int|
                    0 <= i < s.len() && #[trigger] s[i].item_id == item && has_unit_price(s[i]);
                assert(e < s.len() - 1);
                assert(pre[e].item_id == item && has_unit_price(pre[e]));
                let w = choose|i: int|
                    0 <= i < pre.len() && #[trigger] pre[i].item_id == item
                        && has_unit_price(pre[i]) && unit_price(pre[i]) == min_buyout_for(
                        pre,
                        item,
                    );
                assert(s[w].item_id == item && has_unit_price(s[w]) && unit_price(s[w])
                    == min_buyout_for(s, item));
                assert forall|i: int|
                    0 <= i < s.len() && #[trigger] s[i].item_id == item && has_unit_price(s[i])
                        implies unit_price(s[i]) >= min_buyout_for(s, item) by {
                    assert(i < s.len() - 1);
                    assert(pre[i].item_id == item && has_unit_price(pre[i]));
                }
            }
        }
        if forall|i: int|
            0 <= i < s.len() ==> !(#[trigger] s[i].item_id == item && has_unit_price(s[i])) {
            assert forall|i: int|
                0 <= i < pre.len()
                    implies !(#[trigger] pre[i].item_id == item && has_unit_price(pre[i])) by {
                assert(!(s[i].item_id == item && has_unit_price(s[i])));
            }
        }
    }
}

/// When every priced listing for the item has a unit buyout of at least 1,
/// the minimum unit buyout is invariant under permutation of the input.
pub proof fn lemma_min_buyout_permutation(
    s1: Seq<AuctionListing>,
    s2: Seq<AuctionListing>,
    item: i64,
)
    requires
        s1.to_multiset() == s2.to_multiset(),
        forall|i: int|
            0 <= i < s1.len() && #[trigger] s1[i].item_id == item && has_unit_price(s1[i])
                ==> unit_price(s1[i]) >= 1,
    ensures
        min_buyout_for(s1, item) == min_buyout_for(s2, item),
{
    broadcast use vstd::seq_lib::group_to_multiset_ensures;

    lemma_elements_transfer(
        s1,
        s2,
        |l: AuctionListing| (l.item_id == item && has_unit_price(l)) ==> unit_price(l) >= 1,
    );
    assert forall|i: int|
        0 <= i < s2.len() && #[trigger] s2[i].item_id == item && has_unit_price(s2[i])
            implies unit_price(s2[i]) >= 1 by {
        let p = |l: AuctionListing| (l.item_id == item && has_unit_price(l)) ==> unit_price(l)
            >= 1;
        assert(p(s2[i]));
    }
    lemma_min_buyout_is_minimum(s1, item);
    lemma_min_buyout_is_minimum(s2, item);
    if exists|i: int|
        0 <= i < s1.len() && #[trigger] s1[i].item_id == item && has_unit_price(s1[i]) {
        let a = choose|i: int|
            0 <= i < s1.len() && #[trigger] s1[i].item_id == item && has_unit_price(s1[i])
                && unit_price(s1[i]) == min_buyout_for(s1, item);
        assert(s1.contains(s1[a]));
        assert(s2.to_multiset().count(s1[a]) > 0);
        assert(s2.contains(s1[a]));
        let a2 = choose|j: int| 0 <= j < s2.len() && s2[j] == s1[a];
        assert(s2[a2].item_id == item && has_unit_price(s2[a2]));
        let b = choose|i: int|
            0 <= i < s2.len() && #[trigger] s2[i].item_id == item && has_unit_price(s2[i])
                && unit_price(s2[i]) == min_buyout_for(s2, item);
        assert(s1.to_multiset().count(s2[b]) > 0);
        assert(s1.contains(s2[b]));
        let b1 = choose|j: int| 0 <= j < s1.len() && s1[j] == s2[b];
        assert(s1[b1].item_id == item && has_unit_price(s1[b1]));
        assert(min_buyout_for(s2, item) <= unit_price(s2[a2]));
        assert(min_buyout_for(s1, item) <= unit_price(s1[b1]));
    } else {
        assert forall|i: int|
            0 <= i < s2.len()
                implies !(#[trigger] s2[i].item_id == item && has_unit_price(s2[i])) by {
            if s2[i].item_id == item && has_unit_price(s2[i]) {
                assert(s2.contains(s2[i]));
                assert(s1.to_multiset().count(s2[i]) > 0);
                assert(s1.contains(s2[i]));
                let j = choose|j: int| 0 <= j < s1.len() && s1[j] == s2[i];
                assert(s1[j].item_id == item && has_unit_price(s1[j]));
            }
        }
        assert forall|i: int|
            0 <= i < s1.len()
                implies !(#[trigger] s1[i].item_id == item && has_unit_price(s1[i])) by {
        }
    }
}

/// Aggregation is order-independent: for sequences that are permutations of
/// one another — equal as multisets — every per-item statistic agrees,
/// provided no quantity for the item is negative (the saturating sum is not
/// associative across sign changes) and every priced listing for the item
/// has a unit buyout of at least 1 (a unit buyout of 0 collides with the
/// "unset" sentinel).
pub proof fn lemma_aggregation_permutation_invariant(
    s1: Seq<AuctionListing>,
    s2: Seq<AuctionListing>,
    item: i64,
)
    requires
        s1.to_multiset() == s2.to_multiset(),
        forall|i: int|
            0 <= i < s1.len() && s1[i].item_id == item ==> #[trigger] s1[i].quantity >= 0,
        forall|i: int|
            0 <= i < s1.len() && #[trigger] s1[i].item_id == item && has_unit_price(s1[i])
                ==> unit_price(s1[i]) >= 1,
    ensures
        count_for(s1, item) == count_for(s2, item),
        total_for(s1, item) == total_for(s2, item),
        min_buyout_for(s1, item) == min_buyout_for(s2, item),
{
    lemma_count_for_permutation(s1, s2, item);
    lemma_total_for_permutation(s1, s2, item);
    lemma_min_buyout_permutation(s1, s2, item);
}

/// Corollary over whole aggregates: two permutations of the same listings
/// yield equal aggregates for an item, under the same two provisos.
pub proof fn lemma_aggregate_output_permutation(
    s1: Seq<AuctionListing>,
    s2: Seq<AuctionListing>,
    item: i64,
    a1: ItemAggregate,
    a2: ItemAggregate,
)
    requires
        s1.to_multiset() == s2.to_multiset(),
        forall|i: int|
            0 <= i < s1.len() && s1[i].item_id == item ==> #[trigger] s1[i].quantity >= 0,
        forall|i: int|
            0 <= i < s1.len() && #[trigger] s1[i].item_id == item && has_unit_price(s1[i])
                ==> unit_price(s1[i]) >= 1,
        aggregate_matches(s1, item, a1),
        aggregate_matches(s2, item, a2),
    ensures
        a1 == a2,
{
    lemma_aggregation_permutation_invariant(s1, s2, item);
}

} // verus!
