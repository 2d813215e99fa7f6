use auction_metrics::catalog::{format_house_line, format_realm_header, AuctionHouseRef};
use auction_metrics::numtext::{format_i64, format_u64, parse_i64};
use auction_metrics::requests::{
    auction_houses_url_for, auctions_url_for, connected_realms_url_for, namespace_header_value,
};
use auction_metrics::token::AccessToken;

#[test]
fn parses_plain_and_signed_numbers() {
    assert_eq!(parse_i64("123"), Some(123));
    assert_eq!(parse_i64("-45"), Some(-45));
    assert_eq!(parse_i64("+7"), Some(7));
    assert_eq!(parse_i64("0"), Some(0));
}

#[test]
fn parses_the_extremes() {
    assert_eq!(parse_i64("9223372036854775807"), Some(i64::MAX));
    assert_eq!(parse_i64("-9223372036854775808"), Some(i64::MIN));
}

#[test]
fn rejects_out_of_range_values() {
    assert_eq!(parse_i64("9223372036854775808"), None);
    assert_eq!(parse_i64("-9223372036854775809"), None);
    assert_eq!(parse_i64("99999999999999999999999"), None);
}

#[test]
fn rejects_malformed_text() {
    assert_eq!(parse_i64(""), None);
    assert_eq!(parse_i64("-"), None);
    assert_eq!(parse_i64("+"), None);
    assert_eq!(parse_i64("12a"), None);
    assert_eq!(parse_i64("a12"), None);
    assert_eq!(parse_i64(" 12"), None);
}

#[test]
fn renders_decimal_digits() {
    assert_eq!(format_u64(0).as_str(), "0");
    assert_eq!(format_u64(7).as_str(), "7");
    assert_eq!(format_u64(1234).as_str(), "1234");
    assert_eq!(format_i64(-56).as_str(), "-56");
    assert_eq!(format_i64(i64::MAX).as_str(), "9223372036854775807");
    assert_eq!(format_i64(i64::MIN).as_str(), "-9223372036854775808");
}

#[test]
fn parse_inverts_rendering() {
    for v in [0i64, 1, -1, 4440, -999, i64::MAX, i64::MIN] {
        assert_eq!(parse_i64(format_i64(v).as_str()), Some(v));
    }
}

#[test]
fn builds_the_namespace_header() {
    assert_eq!(namespace_header_value("eu").as_str(), "dynamic-classic-eu");
}

#[test]
fn builds_the_endpoint_urls() {
    assert_eq!(
        auctions_url_for("eu", 4440, 2).as_str(),
        "https://eu.api.blizzard.com/data/wow/connected-realm/4440/auctions/2"
    );
    assert_eq!(
        connected_realms_url_for("us").as_str(),
        "https://us.api.blizzard.com/data/wow/connected-realm/index"
    );
    assert_eq!(
        auction_houses_url_for("eu", 4476).as_str(),
        "https://eu.api.blizzard.com/data/wow/connected-realm/4476/auctions/index"
    );
}

#[test]
fn builds_the_catalog_lines() {
    assert_eq!(format_realm_header("Firemaw").as_str(), "- Firemaw -");
    let house = AuctionHouseRef { id: 2, name: String::from("Alliance Auction House") };
    assert_eq!(format_house_line(4476, &house).as_str(), "4476 / 2 - Alliance Auction House");
}

#[test]
fn token_header_composes_type_and_secret() {
    let token = AccessToken::from_parts("Bearer", "s3cret");
    assert_eq!(token.header_value().as_str(), "Bearer s3cret");
}

#[test]
fn token_diagnostics_reveal_nothing() {
    let token = AccessToken::from_parts("Bearer", "s3cret");
    assert_eq!(token.redacted().as_str(), "<redacted>");
}
