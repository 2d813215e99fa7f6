use auction_metrics::names::NameResolver;

const DATA: &[u8] = b"id,c1,c2,c3,c4,c5,name\n\
25,a,b,c,d,e,Wolf Pelt\n\
9,a,b,c,d,e,Iron Ore\n\
bad,a,b,c,d,e,Unparsable Id\n\
9,a,b,c,d,e,Iron Ore Refined\n\
77,a,b,c,d,e,\"Sword, Broad\"\n";

#[test]
fn looks_up_names_from_csv() {
    let resolver = NameResolver::from_csv(DATA);
    assert_eq!(resolver.lookup(25).unwrap().as_str(), "Wolf Pelt");
}

#[test]
fn missing_id_yields_no_name() {
    let resolver = NameResolver::from_csv(DATA);
    assert!(resolver.lookup(12345).is_none());
}

#[test]
fn row_with_unparsable_id_is_skipped() {
    let resolver = NameResolver::from_csv(DATA);
    // The id column "bad" parses as no integer; that row defines nothing.
    for (id, name) in [(25, "Wolf Pelt"), (77, "Sword, Broad")] {
        assert_eq!(resolver.lookup(id).unwrap().as_str(), name);
    }
}

#[test]
fn later_row_replaces_earlier_one() {
    let resolver = NameResolver::from_csv(DATA);
    assert_eq!(resolver.lookup(9).unwrap().as_str(), "Iron Ore Refined");
}

#[test]
fn quoted_field_is_unescaped() {
    let resolver = NameResolver::from_csv(DATA);
    assert_eq!(resolver.lookup(77).unwrap().as_str(), "Sword, Broad");
}

#[test]
fn header_row_defines_no_name() {
    // The header's id column is the text "id", which parses as no integer;
    // but even a numeric-looking header must not reach the mapping.
    let numeric_header: &[u8] = b"1,c1,c2,c3,c4,c5,First Row Is A Header\n2,a,b,c,d,e,Real\n";
    let resolver = NameResolver::from_csv(numeric_header);
    assert!(resolver.lookup(1).is_none());
    assert_eq!(resolver.lookup(2).unwrap().as_str(), "Real");
}

#[test]
fn empty_input_resolves_nothing() {
    let resolver = NameResolver::from_csv(b"");
    assert!(resolver.lookup(0).is_none());
}
