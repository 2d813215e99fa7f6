//! The aggregator: folds a sequence of listings into per-item statistics.
//! Pure computation with no failure modes; each statistic is proved equal to
//! its defining fold from `listing`.

use vstd::prelude::*;
use crate::saturating_add_i64;
use crate::listing::{
    aggregate_matches, count_for, distinct_items, has_unit_price, lemma_count_for_bounds,
    lemma_distinct_items, min_buyout_for, total_for, unit_price, AuctionListing, ItemAggregate,
};

verus! {

/// Whether the id `item` occurs in `ids`.
fn contains_id(ids: &Vec<i64>, item: i64) -> (r: bool)
    ensures
        r == ids@.contains(item),
{
    let mut k: usize = 0;
    while k < ids.len()
        invariant
            0 <= k <= ids@.len(),
            forall|j: int| 0 <= j < k ==> ids@[j] != item,
        decreases ids@.len() - k,
    {
        if ids[k] == item {
            assert(ids@.contains(item));
            return true;
        }
        k += 1;
    }
    false
}

/// Item ids of `listings` in order of first appearance, each once.
fn collect_items(listings: &Vec<AuctionListing>) -> (ids: Vec<i64>)
    ensures
        ids@ == distinct_items(listings@),
{
    let mut ids: Vec<i64> = Vec::new();
    let mut i: usize = 0;
    while i < listings.len()
        invariant
            0 <= i <= listings@.len(),
            ids@ == distinct_items(listings@.take(i as int)),
        decreases listings@.len() - i,
    {
        let ghost pre = listings@.take(i as int);
        assert(listings@.take(i as int + 1).drop_last() =~= pre);
        assert(listings@.take(i as int + 1).last() == listings@[i as int]);
        if !contains_id(&ids, listings[i].item_id) {
            ids.push(listings[i].item_id);
        }
        i += 1;
    }
    assert(listings@.take(listings@.len() as int) =~= listings@);
    ids
}

/// Statistics for one item over the whole listing sequence: its listing
/// count, the saturating sum of its quantities, and its sentinel-folded
/// minimum unit buyout.
pub fn aggregate_for_item(listings: &Vec<AuctionListing>, item: i64) -> (a: ItemAggregate)
    requires
        listings@.len() <= i64::MAX,
    ensures
        aggregate_matches(listings@, item, a),
{
    let mut count: i64 = 0;
    let mut total: i64 = 0;
    let mut min_buyout: i64 = 0;
    let mut i: usize = 0;
    while i < listings.len()
        invariant
            0 <= i <= listings@.len(),
            listings@.len() <= i64::MAX,
            count == count_for(listings@.take(i as int), item),
            total == total_for(listings@.take(i as int), item),
            min_buyout == min_buyout_for(listings@.take(i as int), item),
        decreases listings@.len() - i,
    {
        let ghost pre = listings@.take(i as int);
        assert(listings@.take(i as int + 1).drop_last() =~= pre);
        assert(listings@.take(i as int + 1).last() == listings@[i as int]);
        let l = &listings[i];
        if l.item_id == item {
            proof {
                lemma_count_for_bounds(pre, item);
            }
            count = count + 1;
            total = saturating_add_i64(total, l.quantity);
            if l.buyout > 0 && l.quantity > 0 {
                let unit: i64 = l.buyout / l.quantity;
                if min_buyout == 0 || min_buyout > unit {
                    min_buyout = unit;
                }
            }
        }
        i += 1;
    }
    assert(listings@.take(listings@.len() as int) =~= listings@);
    ItemAggregate { count, total_items: total, min_buyout }
}

/// Folds the whole listing sequence into one aggregate per item id, keyed by
/// id in order of first appearance. Every id that occurs is present exactly
/// once, and its aggregate is exactly the three defining folds.
pub fn aggregate_listings(listings: &Vec<AuctionListing>) -> (r: Vec<(i64, ItemAggregate)>)
    requires
        listings@.len() <= i64::MAX,
    ensures
        r@.len() == distinct_items(listings@).len(),
        forall|j: int| 0 <= j < r@.len() ==> r@[j].0 == distinct_items(listings@)[j],
        forall|j: int|
            0 <= j < r@.len() ==> aggregate_matches(listings@, r@[j].0, r@[j].1),
        forall|j: int, k: int| 0 <= j < k < r@.len() ==> r@[j].0 != r@[k].0,
        forall|item: i64| (exists|j: int| 0 <= j < r@.len() && r@[j].0 == item)
            <==> count_for(listings@, item) > 0,
{
    let ids = collect_items(listings);
    proof {
        lemma_distinct_items(listings@);
    }
    let mut r: Vec<(i64, ItemAggregate)> = Vec::new();
    let mut i: usize = 0;
    while i < ids.len()
        invariant
            0 <= i <= ids@.len(),
            listings@.len() <= i64::MAX,
            ids@ == distinct_items(listings@),
            r@.len() == i,
            forall|j: int| 0 <= j < i ==> r@[j].0 == ids@[j],
            forall|j: int| 0 <= j < i ==> aggregate_matches(listings@, r@[j].0, r@[j].1),
        decreases ids@.len() - i,
    {
        let a = aggregate_for_item(listings, ids[i]);
        r.push((ids[i], a));
        i += 1;
    }
    proof {
        lemma_distinct_items(listings@);
        assert forall|j: int, k: int| 0 <= j < k < r@.len() implies r@[j].0 != r@[k].0 by {
            assert(r@[j].0 == distinct_items(listings@)[j]);
            assert(r@[k].0 == distinct_items(listings@)[k]);
        }
        assert forall|item: i64|
            (exists|j: int| 0 <= j < r@.len() && r@[j].0 == item)
                <==> count_for(listings@, item) > 0 by {
            if exists|j: int| 0 <= j < r@.len() && r@[j].0 == item {
                let j = choose|j: int| 0 <= j < r@.len() && r@[j].0 == item;
                assert(distinct_items(listings@)[j] == item);
                assert(distinct_items(listings@).contains(item));
            }
            if count_for(listings@, item) > 0 {
                assert(distinct_items(listings@).contains(item));
                assert(exists|j: int|
                    0 <= j < distinct_items(listings@).len() && distinct_items(listings@)[j]
                        == item);
                let j = choose|j: int|
                    0 <= j < distinct_items(listings@).len() && distinct_items(listings@)[j]
                        == item;
                assert(r@[j].0 == item);
            }
        }
    }
    r
}

} // verus!
