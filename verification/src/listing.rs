//! The auction-listing data model and the mathematical folds that define
//! per-item aggregation: listing count, saturating total quantity, and the
//! sentinel-based minimum unit buyout.

use vstd::prelude::*;
use crate::sat_add_i64;

verus! {

/// One auction listing, exactly as the marketplace reports it.
#[derive(Clone, Debug)]
pub struct AuctionListing {
    /// Listing id assigned by the marketplace.
    pub id: i64,
    /// Id of the item being sold.
    pub item_id: i64,
    /// Optional randomization property of the item.
    pub rand: Option<i64>,
    /// Optional seed property of the item.
    pub seed: Option<i64>,
    /// Current bid, in the marketplace's smallest currency unit.
    pub bid: i64,
    /// Buyout price for the whole stack; 0 means no buyout is offered.
    pub buyout: i64,
    /// Number of items in the stack.
    pub quantity: i64,
    /// Coarse time-left category reported by the marketplace.
    pub time_left: String,
}

/// Per-item statistics accumulated over one (realm, auction house) pass.
#[derive(Clone, Copy, Debug, PartialEq, Eq, Structural)]
pub struct ItemAggregate {
    /// Number of listings seen for the item.
    pub count: i64,
    /// Total quantity over those listings, added with saturation.
    pub total_items: i64,
    /// Minimum unit buyout seen so far; 0 is the "unset" sentinel.
    pub min_buyout: i64,
}

/// A listing contributes a unit buyout only when it offers a buyout and has a
/// positive quantity. A listing with `quantity <= 0` is counted and its
/// quantity added, but it never contributes a unit price: this is the
/// explicit policy for the zero-quantity corner, where a unit price would be
/// undefined.
pub open spec fn has_unit_price(l: AuctionListing) -> bool {
    l.buyout > 0 && l.quantity > 0
}

/// Price of a single item in the stack: buyout divided by quantity, floored.
pub open spec fn unit_price(l: AuctionListing) -> int {
    l.buyout as int / l.quantity as int
}

/// Number of listings in `s` for item `item`.
pub open spec fn count_for(s: Seq<AuctionListing>, item: i64) -> int
    decreases s.len(),
{
    if s.len() == 0 {
        0
    } else {
        count_for(s.drop_last(), item) + if s.last().item_id == item {
            1int
        } else {
            0int
        }
    }
}

/// Saturating sum of `quantity` over the listings in `s` for item `item`.
pub open spec fn total_for(s: Seq<AuctionListing>, item: i64) -> int
    decreases s.len(),
{
    if s.len() == 0 {
        0
    } else {
        let t = total_for(s.drop_last(), item);
        if s.last().item_id == item {
            sat_add_i64(t, s.last().quantity as int)
        } else {
            t
        }
    }
}

/// Minimum unit buyout over the listings in `s` for item `item`, folded with
/// the sentinel rule: 0 means "unset"; a priced listing replaces the current
/// value when it is 0 or strictly larger than the listing's unit price.
pub open spec fn min_buyout_for(s: Seq<AuctionListing>, item: i64) -> int
    decreases s.len(),
{
    if s.len() == 0 {
        0
    } else {
        let m = min_buyout_for(s.drop_last(), item);
        let l = s.last();
        if l.item_id == item && has_unit_price(l) {
            if m == 0 || m > unit_price(l) {
                unit_price(l)
            } else {
                m
            }
        } else {
            m
        }
    }
}

/// The aggregate `a` is exactly what the three folds give for `item` over `s`.
pub open spec fn aggregate_matches(s: Seq<AuctionListing>, item: i64, a: ItemAggregate) -> bool {
    &&& a.count == count_for(s, item)
    &&& a.total_items == total_for(s, item)
    &&& a.min_buyout == min_buyout_for(s, item)
}

/// Item ids of `s` in order of first appearance, each exactly once.
pub open spec fn distinct_items(s: Seq<AuctionListing>) -> Seq<i64>
    decreases s.len(),
{
    if s.len() == 0 {
        Seq::empty()
    } else {
        let p = distinct_items(s.drop_last());
        if p.contains(s.last().item_id) {
            p
        } else {
            p.push(s.last().item_id)
        }
    }
}

/// The listing count for an item never exceeds the number of listings, and is
/// positive exactly when some listing carries the item.
pub proof fn lemma_count_for_bounds(s: Seq<AuctionListing>, item: i64)
    ensures
        0 <= count_for(s, item) <= s.len(),
        count_for(s, item) > 0 <==> exists|i: int| 0 <= i < s.len() && s[i].item_id == item,
    decreases s.len(),
{
    if s.len() > 0 {
        lemma_count_for_bounds(s.drop_last(), item);
        if s.last().item_id == item {
            assert(s[s.len() - 1].item_id == item);
        }
        if count_for(s, item) > 0 && s.last().item_id != item {
            let i = choose|i: int|
                0 <= i < s.drop_last().len() && s.drop_last()[i].item_id == item;
            assert(s[i].item_id == item);
        }
        if exists|i: int| 0 <= i < s.len() && s[i].item_id == item {
            let i = choose|i: int| 0 <= i < s.len() && s[i].item_id == item;
            if i < s.len() - 1 {
                assert(s.drop_last()[i].item_id == item);
            }
        }
    }
}

/// `distinct_items` has no repeats and holds exactly the ids that occur in `s`.
pub proof fn lemma_distinct_items(s: Seq<AuctionListing>)
    ensures
        forall|j: int, k: int|
            0 <= j < k < distinct_items(s).len() ==> distinct_items(s)[j] != distinct_items(s)[k],
        forall|item: i64|
            distinct_items(s).contains(item) <==> count_for(s, item) > 0,
    decreases s.len(),
{
    if s.len() > 0 {
        lemma_distinct_items(s.drop_last());
        let p = distinct_items(s.drop_last());
        let d = distinct_items(s);
        assert forall|item: i64| d.contains(item) <==> count_for(s, item) > 0 by {
            lemma_count_for_bounds(s, item);
            lemma_count_for_bounds(s.drop_last(), item);
            if d.contains(item) {
                if p.contains(item) {
                    assert(count_for(s.drop_last(), item) > 0);
                } else {
                    assert(item == s.last().item_id);
                }
            }
            if count_for(s, item) > 0 {
                if count_for(s.drop_last(), item) > 0 {
                    assert(p.contains(item));
                    if !p.contains(s.last().item_id) {
                        assert(d == p.push(s.last().item_id));
                        assert(d[p.len() as int - 1 + 1] == s.last().item_id);
                        let j = choose|j: int| 0 <= j < p.len() && p[j] == item;
                        assert(d[j] == item);
                    }
                } else {
                    assert(item == s.last().item_id);
                    if !p.contains(item) {
                        assert(d == p.push(item));
                        assert(d[d.len() - 1] == item);
                    }
                }
            }
        }
        assert forall|j: int, k: int|
            0 <= j < k < d.len() implies d[j] != d[k] by {
            if !p.contains(s.last().item_id) {
                assert(d == p.push(s.last().item_id));
                if k == d.len() - 1 {
                    assert(d[j] == p[j]);
                    assert(p.contains(p[j]));
                }
            }
        }
    }
}

} // verus!
