use hpx::kjson::{find_id_by_name, parse_id_entries};

#[test]
fn listing_parse_extracts_names_and_ids() {
    let listing = "[{\"name\":\"TestProg\",\"id\":42,\"type\":\"xdp\"},{\"name\":\"other\",\"id\":7}]";
    let entries = parse_id_entries(listing).expect("well-formed listing");
    assert_eq!(entries.len(), 2);
    assert_eq!(entries[0].name, "TestProg");
    assert_eq!(entries[0].id, Some(42));
    assert_eq!(entries[1].name, "other");
    assert_eq!(entries[1].id, Some(7));
}

#[test]
fn lookup_resolves_the_first_matching_name() {
    let listing = "[{\"name\":\"a\",\"id\":1},{\"name\":\"b\",\"id\":2},{\"name\":\"b\",\"id\":3}]";
    let entries = parse_id_entries(listing).unwrap();
    assert_eq!(find_id_by_name(&entries, "a"), Some(Some(1)));
    assert_eq!(find_id_by_name(&entries, "b"), Some(Some(2)));
    assert_eq!(find_id_by_name(&entries, "missing"), None);
}

#[test]
fn an_element_without_a_numeric_id_is_found_but_empty() {
    let listing = "[{\"name\":\"ghost\"},{\"name\":\"odd\",\"id\":\"nine\"}]";
    let entries = parse_id_entries(listing).unwrap();
    assert_eq!(find_id_by_name(&entries, "ghost"), Some(None));
    assert_eq!(find_id_by_name(&entries, "odd"), Some(None));
}

#[test]
fn elements_without_names_contribute_empty_names() {
    let listing = "[{\"id\":5}]";
    let entries = parse_id_entries(listing).unwrap();
    assert_eq!(entries.len(), 1);
    assert_eq!(entries[0].name, "");
    assert_eq!(entries[0].id, Some(5));
}

#[test]
fn malformed_or_non_array_listings_parse_to_nothing() {
    assert!(parse_id_entries("this is not json").is_none());
    assert!(parse_id_entries("{\"name\":\"x\"}").is_none());
    assert!(parse_id_entries("").is_none());
}

#[test]
fn empty_listing_yields_no_entries() {
    let entries = parse_id_entries("[]").unwrap();
    assert!(entries.is_empty());
    assert_eq!(find_id_by_name(&entries, "anything"), None);
}
