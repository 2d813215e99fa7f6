//! The exact text of every marketplace request the run issues: the
//! region-derived namespace header and the three endpoint URLs. The
//! transport layer sends these verbatim.

use vstd::prelude::*;
use vstd::string::StringExecFns;
use crate::numtext::dec_i64;

verus! {

/// Namespace header value for a region: dynamic classic data.
pub open spec fn namespace_value(region: Seq<char>) -> Seq<char> {
    "dynamic-classic-"@ + region
}

/// URL of the listing endpoint for one (realm, auction house) pair.
pub open spec fn auctions_url(region: Seq<char>, realm: i64, ah: i64) -> Seq<char> {
    "https://"@ + region + ".api.blizzard.com/data/wow/connected-realm/"@ + dec_i64(realm as int)
        + "/auctions/"@ + dec_i64(ah as int)
}

/// URL of the connected-realm index for a region.
pub open spec fn connected_realms_url(region: Seq<char>) -> Seq<char> {
    "https://"@ + region + ".api.blizzard.com/data/wow/connected-realm/index"@
}

/// URL of the auction-house index for a connected realm.
pub open spec fn auction_houses_url(region: Seq<char>, realm: i64) -> Seq<char> {
    "https://"@ + region + ".api.blizzard.com/data/wow/connected-realm/"@ + dec_i64(realm as int)
        + "/auctions/index"@
}

/// Builds the namespace header value for a region.
pub fn namespace_header_value(region: &str) -> (r: String)
    ensures
        r@ == namespace_value(region@),
{
    let mut r = String::from_str("dynamic-classic-");
    r.append(region);
    r
}

/// Builds the listing-endpoint URL for one (realm, auction house) pair.
pub fn auctions_url_for(region: &str, realm: i64, ah: i64) -> (r: String)
    ensures
        r@ == auctions_url(region@, realm, ah),
{
    let mut r = String::from_str("https://");
    r.append(region);
    r.append(".api.blizzard.com/data/wow/connected-realm/");
    let realm_digits = crate::numtext::format_i64(realm);
    r.append(realm_digits.as_str());
    r.append("/auctions/");
    let ah_digits = crate::numtext::format_i64(ah);
    r.append(ah_digits.as_str());
    proof {
        assert(r@ =~= auctions_url(region@, realm, ah));
    }
    r
}

/// Builds the connected-realm index URL for a region.
pub fn connected_realms_url_for(region: &str) -> (r: String)
    ensures
        r@ == connected_realms_url(region@),
{
    let mut r = String::from_str("https://");
    r.append(region);
    r.append(".api.blizzard.com/data/wow/connected-realm/index");
    proof {
        assert(r@ =~= connected_realms_url(region@));
    }
    r
}

/// Builds the auction-house index URL for a connected realm.
pub fn auction_houses_url_for(region: &str, realm: i64) -> (r: String)
    ensures
        r@ == auction_houses_url(region@, realm),
{
    let mut r = String::from_str("https://");
    r.append(region);
    r.append(".api.blizzard.com/data/wow/connected-realm/");
    let realm_digits = crate::numtext::format_i64(realm);
    r.append(realm_digits.as_str());
    r.append("/auctions/index");
    proof {
        assert(r@ =~= auction_houses_url(region@, realm));
    }
    r
}

} // verus!
