use auction_metrics::aggregate::aggregate_listings;
use auction_metrics::catalog::{format_group_sections, format_realm_section, AuctionHouseRef, RealmGroup};
use auction_metrics::listing::AuctionListing;
use auction_metrics::metrics::{build_points, measurement_name};
use auction_metrics::names::NameResolver;

fn listing(item_id: i64, buyout: i64, quantity: i64) -> AuctionListing {
    AuctionListing {
        id: 0,
        item_id,
        rand: None,
        seed: None,
        bid: 0,
        buyout,
        quantity,
        time_left: String::from("MEDIUM"),
    }
}

#[test]
fn points_carry_tags_and_fields() {
    let listings = vec![listing(1, 100, 10), listing(1, 0, 5), listing(2, 60, 2)];
    let aggregates = aggregate_listings(&listings);
    let names = NameResolver::from_csv(b"id,c1,c2,c3,c4,c5,name\n1,a,b,c,d,e,Wolf Pelt\n");
    let points = build_points(&aggregates, 4440, 2, &names);
    assert_eq!(points.len(), 2);

    assert_eq!(points[0].item_id, 1);
    assert_eq!(points[0].realm_id, 4440);
    assert_eq!(points[0].ah_id, 2);
    assert_eq!(points[0].count, 2);
    assert_eq!(points[0].total_items, 15);
    assert_eq!(points[0].min_buyout, 10);

    assert_eq!(points[1].item_id, 2);
    assert_eq!(points[1].count, 1);
    assert_eq!(points[1].total_items, 2);
    assert_eq!(points[1].min_buyout, 30);
}

#[test]
fn name_tag_present_exactly_for_resolvable_ids() {
    let listings = vec![listing(1, 100, 10), listing(2, 60, 2)];
    let aggregates = aggregate_listings(&listings);
    let names = NameResolver::from_csv(b"id,c1,c2,c3,c4,c5,name\n1,a,b,c,d,e,Wolf Pelt\n");
    let points = build_points(&aggregates, 1, 1, &names);
    assert_eq!(points[0].item_name.as_deref(), Some("Wolf Pelt"));
    assert_eq!(points[1].item_name, None);
}

#[test]
fn all_points_share_the_measurement() {
    assert_eq!(measurement_name(), "auctions");
}

#[test]
fn group_report_repeats_houses_under_every_member_realm() {
    let houses = vec![AuctionHouseRef { id: 2, name: String::from("Alliance Auction House") }];
    let group = RealmGroup {
        id: 4476,
        realms: vec![String::from("Firemaw"), String::from("Flamegor")],
    };
    let lines = format_group_sections(&group, &houses);
    let texts: Vec<&str> = lines.iter().map(|l| l.as_str()).collect();
    assert_eq!(
        texts,
        vec![
            "- Firemaw -",
            "4476 / 2 - Alliance Auction House",
            "- Flamegor -",
            "4476 / 2 - Alliance Auction House",
        ]
    );
}

#[test]
fn realm_section_lists_header_then_houses() {
    let houses = vec![
        AuctionHouseRef { id: 2, name: String::from("Alliance Auction House") },
        AuctionHouseRef { id: 6, name: String::from("Horde Auction House") },
    ];
    let lines = format_realm_section(4476, "Firemaw", &houses);
    let texts: Vec<&str> = lines.iter().map(|l| l.as_str()).collect();
    assert_eq!(
        texts,
        vec![
            "- Firemaw -",
            "4476 / 2 - Alliance Auction House",
            "4476 / 6 - Horde Auction House",
        ]
    );
}
