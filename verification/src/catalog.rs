//! Discovery read models and the report lines the catalog walk prints: one
//! header per member realm, then one line per auction house of the group.
//! Nothing here is aggregated or persisted.

use vstd::prelude::*;
use vstd::string::StringExecFns;
use crate::numtext::dec_i64;

verus! {

/// One auction house of a connected realm, as the index reports it.
#[derive(Debug)]
pub struct AuctionHouseRef {
    /// Auction-house id.
    pub id: i64,
    /// Display name of the venue.
    pub name: String,
}

/// A connected realm: a server cluster whose member realms share an economy.
#[derive(Debug)]
pub struct RealmGroup {
    /// Connected-realm id.
    pub id: i64,
    /// Names of the member realms.
    pub realms: Vec<String>,
}

/// The header line printed for one member realm.
pub open spec fn realm_header(name: Seq<char>) -> Seq<char> {
    "- "@ + name + " -"@
}

/// The line printed for one auction house of a group.
pub open spec fn house_line(group_id: i64, house_id: i64, name: Seq<char>) -> Seq<char> {
    dec_i64(group_id as int) + " / "@ + dec_i64(house_id as int) + " - "@ + name
}

/// Builds the header line for a member realm.
pub fn format_realm_header(name: &str) -> (r: String)
    ensures
        r@ == realm_header(name@),
{
    let mut r = String::from_str("- ");
    r.append(name);
    r.append(" -");
    proof {
        assert(r@ =~= realm_header(name@));
    }
    r
}

/// Builds the report line for one auction house of a group.
pub fn format_house_line(group_id: i64, house: &AuctionHouseRef) -> (r: String)
    ensures
        r@ == house_line(group_id, house.id, house.name@),
{
    let mut r = crate::numtext::format_i64(group_id);
    r.append(" / ");
    let house_digits = crate::numtext::format_i64(house.id);
    r.append(house_digits.as_str());
    r.append(" - ");
    r.append(house.name.as_str());
    proof {
        assert(r@ =~= house_line(group_id, house.id, house.name@));
    }
    r
}

/// The lines a group's auction-house listing contributes under one realm
/// header, in order.
pub open spec fn realm_section(
    group_id: i64,
    name: Seq<char>,
    houses: Seq<(i64, Seq<char>)>,
) -> Seq<Seq<char>> {
    seq![realm_header(name)] + houses.map(|j: int, h: (i64, Seq<char>)| house_line(
        group_id,
        h.0,
        h.1,
    ))
}

/// Ids and names of a house sequence.
pub open spec fn houses_view(houses: Seq<AuctionHouseRef>) -> Seq<(i64, Seq<char>)> {
    houses.map(|j: int, h: AuctionHouseRef| (h.id, h.name@))
}

/// Builds the full report section for one member realm of a group: its
/// header, then one line per auction house.
pub fn format_realm_section(
    group_id: i64,
    name: &str,
    houses: &Vec<AuctionHouseRef>,
) -> (lines: Vec<String>)
    ensures
        lines.deep_view() == realm_section(group_id, name@, houses_view(houses@)),
{
    let mut lines: Vec<String> = Vec::new();
    lines.push(format_realm_header(name));
    let mut j: usize = 0;
    proof {
        assert(lines.deep_view() =~= realm_section(
            group_id,
            name@,
            houses_view(houses@).take(0),
        ));
    }
    while j < houses.len()
        invariant
            0 <= j <= houses@.len(),
            lines.deep_view() =~= realm_section(
                group_id,
                name@,
                houses_view(houses@).take(j as int),
            ),
        decreases houses@.len() - j,
    {
        let ghost before = lines.deep_view();
        lines.push(format_house_line(group_id, &houses[j]));
        proof {
            assert(lines.deep_view() =~= before.push(house_line(
                group_id,
                houses@[j as int].id,
                houses@[j as int].name@,
            )));
            assert(houses_view(houses@).take(j as int + 1) =~= houses_view(houses@).take(
                j as int,
            ).push((houses@[j as int].id, houses@[j as int].name@)));
            assert(realm_section(group_id, name@, houses_view(houses@).take(j as int + 1))
                =~= realm_section(group_id, name@, houses_view(houses@).take(j as int)).push(
                house_line(group_id, houses@[j as int].id, houses@[j as int].name@),
            ));
        }
        j += 1;
    }
    proof {
        assert(houses_view(houses@).take(houses@.len() as int) =~= houses_view(houses@));
    }
    lines
}

/// The whole report of one connected realm: the section of every member
/// realm, in order.
pub open spec fn group_sections(
    group_id: i64,
    realms: Seq<Seq<char>>,
    houses: Seq<(i64, Seq<char>)>,
) -> Seq<Seq<char>>
    decreases realms.len(),
{
    if realms.len() == 0 {
        Seq::empty()
    } else {
        group_sections(group_id, realms.drop_last(), houses) + realm_section(
            group_id,
            realms.last(),
            houses,
        )
    }
}

/// Builds the full report for one connected realm: for each member realm its
/// header, then one line per auction house of the group.
pub fn format_group_sections(group: &RealmGroup, houses: &Vec<AuctionHouseRef>) -> (lines: Vec<
    String,
>)
    ensures
        lines.deep_view() == group_sections(group.id, group.realms.deep_view(), houses_view(
            houses@,
        )),
{
    let ghost realms = group.realms.deep_view();
    let mut lines: Vec<String> = Vec::new();
    let mut i: usize = 0;
    proof {
        assert(lines.deep_view() =~= group_sections(group.id, realms.take(0), houses_view(
            houses@,
        )));
    }
    while i < group.realms.len()
        invariant
            0 <= i <= group.realms@.len(),
            realms == group.realms.deep_view(),
            realms.len() == group.realms@.len(),
            lines.deep_view() =~= group_sections(group.id, realms.take(i as int), houses_view(
                houses@,
            )),
        decreases group.realms@.len() - i,
    {
        let ghost before = lines.deep_view();
        let mut section = format_realm_section(group.id, group.realms[i].as_str(), houses);
        let ghost section_view = section.deep_view();
        lines.append(&mut section);
        proof {
            assert(realms[i as int] == group.realms@[i as int]@);
            assert(lines.deep_view() =~= before + section_view);
            assert(realms.take(i as int + 1).drop_last() =~= realms.take(i as int));
            assert(realms.take(i as int + 1).last() == realms[i as int]);
        }
        i += 1;
    }
    proof {
        assert(realms.take(realms.len() as int) =~= realms);
    }
    lines
}

} // verus!
