use auction_metrics::aggregate::{aggregate_for_item, aggregate_listings};
use auction_metrics::listing::{AuctionListing, ItemAggregate};
use auction_metrics::saturating_add_i64;

fn listing(item_id: i64, buyout: i64, quantity: i64) -> AuctionListing {
    AuctionListing {
        id: 0,
        item_id,
        rand: None,
        seed: None,
        bid: 0,
        buyout,
        quantity,
        time_left: String::from("LONG"),
    }
}

#[test]
fn two_items_three_listings() {
    let listings = vec![listing(1, 100, 10), listing(1, 0, 5), listing(2, 60, 2)];
    let aggregates = aggregate_listings(&listings);
    assert_eq!(aggregates.len(), 2);
    assert_eq!(
        aggregates[0],
        (1, ItemAggregate { count: 2, total_items: 15, min_buyout: 10 })
    );
    assert_eq!(
        aggregates[1],
        (2, ItemAggregate { count: 1, total_items: 2, min_buyout: 30 })
    );
}

#[test]
fn empty_input_gives_no_aggregates() {
    let aggregates = aggregate_listings(&vec![]);
    assert!(aggregates.is_empty());
}

#[test]
fn zero_quantity_is_counted_but_contributes_no_unit_price() {
    let listings = vec![listing(7, 100, 0)];
    let a = aggregate_for_item(&listings, 7);
    assert_eq!(a, ItemAggregate { count: 1, total_items: 0, min_buyout: 0 });
}

#[test]
fn no_buyout_means_no_minimum() {
    let listings = vec![listing(3, 0, 4), listing(3, 0, 1)];
    let a = aggregate_for_item(&listings, 3);
    assert_eq!(a, ItemAggregate { count: 2, total_items: 5, min_buyout: 0 });
}

#[test]
fn unit_price_floors_the_division() {
    let listings = vec![listing(4, 7, 2)];
    let a = aggregate_for_item(&listings, 4);
    assert_eq!(a.min_buyout, 3);
}

#[test]
fn smaller_unit_price_replaces_larger() {
    let listings = vec![listing(5, 100, 1), listing(5, 40, 2), listing(5, 90, 1)];
    let a = aggregate_for_item(&listings, 5);
    assert_eq!(a.count, 3);
    assert_eq!(a.total_items, 4);
    assert_eq!(a.min_buyout, 20);
}

#[test]
fn zero_unit_price_hits_the_sentinel() {
    // A whole-stack buyout below the stack size floors to a unit price of 0,
    // which coincides with the "unset" sentinel and can be displaced by a
    // later listing.
    let listings = vec![listing(6, 5, 10), listing(6, 30, 2)];
    let a = aggregate_for_item(&listings, 6);
    assert_eq!(a.min_buyout, 15);
}

#[test]
fn total_saturates_at_the_maximum() {
    let listings = vec![listing(8, 0, i64::MAX), listing(8, 0, 5)];
    let a = aggregate_for_item(&listings, 8);
    assert_eq!(a.count, 2);
    assert_eq!(a.total_items, i64::MAX);
}

#[test]
fn aggregates_are_order_independent() {
    let a = vec![
        listing(1, 100, 10),
        listing(2, 60, 2),
        listing(1, 0, 5),
        listing(2, 44, 4),
    ];
    let b = vec![
        listing(2, 44, 4),
        listing(1, 0, 5),
        listing(2, 60, 2),
        listing(1, 100, 10),
    ];
    for item in [1i64, 2] {
        assert_eq!(aggregate_for_item(&a, item), aggregate_for_item(&b, item));
    }
}

#[test]
fn saturating_addition_clamps_at_both_bounds() {
    assert_eq!(saturating_add_i64(2, 3), 5);
    assert_eq!(saturating_add_i64(i64::MAX, 1), i64::MAX);
    assert_eq!(saturating_add_i64(i64::MIN, -1), i64::MIN);
    assert_eq!(saturating_add_i64(i64::MAX, -1), i64::MAX - 1);
    assert_eq!(saturating_add_i64(i64::MIN, 1), i64::MIN + 1);
}

#[test]
fn listings_for_other_items_are_ignored() {
    let listings = vec![listing(1, 100, 10), listing(2, 60, 2)];
    let a = aggregate_for_item(&listings, 9);
    assert_eq!(a, ItemAggregate { count: 0, total_items: 0, min_buyout: 0 });
}
