//! Metric points: the time-series representation of per-item aggregates.
//! One point per item id, tagged with item, realm and auction house, the
//! item's display name when the resolver knows it, and the three statistic
//! fields.

use vstd::prelude::*;
use vstd::string::StringExecFns;
use crate::listing::ItemAggregate;
use crate::names::NameResolver;

verus! {

/// One write-once time-series point under the `auctions` measurement.
#[derive(Debug)]
pub struct MetricPoint {
    /// Tag: item id.
    pub item_id: i64,
    /// Tag: realm id of the pass.
    pub realm_id: i64,
    /// Tag: auction-house id of the pass.
    pub ah_id: i64,
    /// Tag: display name, present exactly when the resolver knows the id.
    pub item_name: Option<String>,
    /// Field: number of listings.
    pub count: i64,
    /// Field: saturating total quantity.
    pub total_items: i64,
    /// Field: minimum unit buyout, 0 when none was observed.
    pub min_buyout: i64,
}

/// Name of the measurement every point is written under.
pub fn measurement_name() -> (r: &'static str)
    ensures
        r@ == "auctions"@,
{
    "auctions"
}

/// The point `p` carries exactly the aggregate `entry` for the given pass,
/// with the name tag present if and only if the resolver maps the item id,
/// and then with exactly the resolved name.
pub open spec fn point_matches(
    p: MetricPoint,
    entry: (i64, ItemAggregate),
    realm: i64,
    ah: i64,
    names: Map<i64, Seq<char>>,
) -> bool {
    &&& p.item_id == entry.0
    &&& p.realm_id == realm
    &&& p.ah_id == ah
    &&& p.count == entry.1.count
    &&& p.total_items == entry.1.total_items
    &&& p.min_buyout == entry.1.min_buyout
    &&& match p.item_name {
        Some(n) => names.dom().contains(entry.0) && n@ == names[entry.0],
        None => !names.dom().contains(entry.0),
    }
}

/// Builds one point per aggregate entry, in order.
pub fn build_points(
    aggregates: &Vec<(i64, ItemAggregate)>,
    realm: i64,
    ah: i64,
    names: &NameResolver,
) -> (points: Vec<MetricPoint>)
    ensures
        points@.len() == aggregates@.len(),
        forall|j: int|
            0 <= j < points@.len() ==> point_matches(
                #[trigger] points@[j],
                aggregates@[j],
                realm,
                ah,
                names@,
            ),
{
    let mut points: Vec<MetricPoint> = Vec::new();
    let mut i: usize = 0;
    while i < aggregates.len()
        invariant
            0 <= i <= aggregates@.len(),
            points@.len() == i,
            forall|j: int|
                0 <= j < i ==> point_matches(
                    #[trigger] points@[j],
                    aggregates@[j],
                    realm,
                    ah,
                    names@,
                ),
        decreases aggregates@.len() - i,
    {
        let (item_id, agg) = aggregates[i];
        let item_name = match names.lookup(item_id) {
            Some(name) => Some(String::from_str(name.as_str())),
            None => None,
        };
        points.push(
            MetricPoint {
                item_id,
                realm_id: realm,
                ah_id: ah,
                item_name,
                count: agg.count,
                total_items: agg.total_items,
                min_buyout: agg.min_buyout,
            },
        );
        i += 1;
    }
    points
}

} // verus!
