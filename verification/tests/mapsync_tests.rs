use hpx::mapsync::{distinct_ips, dotted_quad, encode_ip_key, encode_ip_value, parse_octet};

fn chars(s: &str) -> Vec<char> {
    s.chars().collect()
}

#[test]
fn octets_parse_like_eight_bit_numbers() {
    assert_eq!(parse_octet(&chars("0")), 0);
    assert_eq!(parse_octet(&chars("7")), 7);
    assert_eq!(parse_octet(&chars("255")), 255);
    assert_eq!(parse_octet(&chars("007")), 7);
    assert_eq!(parse_octet(&chars("+9")), 9);
}

#[test]
fn bad_octets_become_zero() {
    assert_eq!(parse_octet(&chars("256")), 0);
    assert_eq!(parse_octet(&chars("999999999999")), 0);
    assert_eq!(parse_octet(&chars("abc")), 0);
    assert_eq!(parse_octet(&chars("")), 0);
    assert_eq!(parse_octet(&chars("-1")), 0);
    assert_eq!(parse_octet(&chars("1 2")), 0);
}

#[test]
fn keys_hold_one_byte_per_field() {
    assert_eq!(encode_ip_key("10.0.0.5"), vec![10, 0, 0, 5]);
    assert_eq!(encode_ip_key("192.168.1.103"), vec![192, 168, 1, 103]);
    assert_eq!(encode_ip_key("1.bad.3.4"), vec![1, 0, 3, 4]);
}

#[test]
fn values_echo_the_key_and_zero_the_record() {
    let value = encode_ip_value("10.0.0.5");
    assert_eq!(value.len(), 32);
    assert_eq!(&value[0..4], &[10, 0, 0, 5]);
    assert!(value[4..].iter().all(|b| *b == 0));
}

#[test]
fn dotted_quad_renders_the_first_four_bytes() {
    let record = vec![192u8, 168, 1, 103, 9, 9, 9, 9];
    assert_eq!(dotted_quad(&record), "192.168.1.103");
}

#[test]
fn preload_roundtrip_reproduces_the_addresses() {
    let addrs = [
        String::from("10.0.0.5"),
        String::from("192.168.1.103"),
        String::from("255.255.255.255"),
    ];
    let mut records: Vec<Vec<u8>> = Vec::new();
    for a in &addrs {
        records.push(encode_ip_value(a));
    }
    let decoded = distinct_ips(&records);
    assert_eq!(decoded, addrs.to_vec());
}

#[test]
fn duplicate_preload_entries_collapse_on_decode() {
    let mut records: Vec<Vec<u8>> = Vec::new();
    for a in ["10.0.0.5", "1.2.3.4", "10.0.0.5"] {
        records.push(encode_ip_value(a));
    }
    let decoded = distinct_ips(&records);
    assert_eq!(decoded, vec![String::from("10.0.0.5"), String::from("1.2.3.4")]);
}

#[test]
fn empty_map_decodes_to_nothing() {
    let records: Vec<Vec<u8>> = Vec::new();
    assert!(distinct_ips(&records).is_empty());
}

#[test]
fn non_canonical_addresses_decode_to_canonical_form() {
    // A leading zero survives encoding as its numeric value only: the
    // round trip yields the canonical spelling, not the original.
    let records = vec![encode_ip_value("01.2.3.4")];
    let decoded = distinct_ips(&records);
    assert_eq!(decoded, vec![String::from("1.2.3.4")]);
}
