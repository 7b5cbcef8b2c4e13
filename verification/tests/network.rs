use blacklist::filter::keep_valid;
use blacklist::filter::list_contains;
use blacklist::filter::read_networks;
use blacklist::net::has_char;
use blacklist::net::parse_address;
use blacklist::Action;
use blacklist::Address;
use blacklist::Blacklist;
use blacklist::InputMessage;
use blacklist::Network;
use blacklist::Note;
use blacklist::OutputMessage;

#[test]
fn address_text_gives_its_bits() {
    assert_eq!(parse_address("10.0.0.5"), Some(Address::V4(0x0a00_0005)));
    assert_eq!(parse_address("255.255.255.255"), Some(Address::V4(0xffff_ffff)));
    assert_eq!(parse_address("0.0.0.0"), Some(Address::V4(0)));
    assert_eq!(parse_address("::1"), Some(Address::V6(1)));
    assert_eq!(parse_address("2001:db8::1"), Some(Address::V6(0x2001_0db8_0000_0000_0000_0000_0000_0001)));
}

#[test]
fn text_that_is_no_address_gives_none() {
    assert_eq!(parse_address(""), None);
    assert_eq!(parse_address("10.0.0"), None);
    assert_eq!(parse_address("10.0.0.256"), None);
    assert_eq!(parse_address("10.0.0.5/32"), None);
    assert_eq!(parse_address("10.0.0.0/24"), None);
    assert_eq!(parse_address("::1/128"), None);
    assert_eq!(parse_address("/"), None);
    assert_eq!(parse_address("example.org"), None);
    assert_eq!(parse_address("10.0.0.5 "), None);
}

#[test]
fn has_char_finds_a_slash() {
    assert!(has_char("10.0.0.0/24", '/'));
    assert!(has_char("/", '/'));
    assert!(!has_char("10.0.0.0", '/'));
    assert!(!has_char("", '/'));
    assert!(has_char("é/", '/'));
    assert!(!has_char("é", '/'));
}

#[test]
fn network_new_checks_the_prefix() {
    assert!(Network::new(Address::V4(0), 0).is_some());
    assert!(Network::new(Address::V4(0), 32).is_some());
    assert!(Network::new(Address::V4(0), 33).is_none());
    assert!(Network::new(Address::V6(0), 33).is_some());
    assert!(Network::new(Address::V6(0), 128).is_some());
    assert!(Network::new(Address::V6(0), 129).is_none());
}

#[test]
fn contains_compares_the_leading_bits() {
    let net = Network::new(Address::V4(0x0a00_0000), 24).unwrap();
    assert!(net.contains(&Address::V4(0x0a00_0000)));
    assert!(net.contains(&Address::V4(0x0a00_0009)));
    assert!(net.contains(&Address::V4(0x0a00_00ff)));
    assert!(!net.contains(&Address::V4(0x0a00_0100)));
    assert!(!net.contains(&Address::V4(0x09ff_ffff)));
    assert!(!net.contains(&Address::V6(0x0a00_0009)));
}

#[test]
fn contains_at_the_extreme_prefixes() {
    let all = Network::new(Address::V4(0x0a00_0000), 0).unwrap();
    assert!(all.contains(&Address::V4(0)));
    assert!(all.contains(&Address::V4(0xffff_ffff)));
    let one = Network::new(Address::V4(0x0a00_0005), 32).unwrap();
    assert!(one.contains(&Address::V4(0x0a00_0005)));
    assert!(!one.contains(&Address::V4(0x0a00_0004)));
    let all6 = Network::new(Address::V6(7), 0).unwrap();
    assert!(all6.contains(&Address::V6(0)));
    assert!(all6.contains(&Address::V6(u128::MAX)));
    assert!(!all6.contains(&Address::V4(0)));
    let one6 = Network::new(Address::V6(7), 128).unwrap();
    assert!(one6.contains(&Address::V6(7)));
    assert!(!one6.contains(&Address::V6(6)));
    let half = Network::new(Address::V6(1u128 << 127), 1).unwrap();
    assert!(half.contains(&Address::V6(u128::MAX)));
    assert!(!half.contains(&Address::V6(1)));
}

#[test]
fn read_networks_reads_each_text() {
    let texts = vec!["10.0.0.0/24".to_string(), "nope".to_string(), "::1/128".to_string(), "10.0.0.0/33".to_string(), "10.0.0.0/255.255.0.0".to_string()];
    let parsed = read_networks(&texts);
    assert_eq!(parsed.len(), 5);
    assert!(parsed[0].is_some());
    assert!(parsed[1].is_none());
    assert!(parsed[2].is_some());
    assert!(parsed[3].is_none());
    assert!(parsed[4].is_some());
    assert!(parsed[0].unwrap().contains(&Address::V4(0x0a00_00fe)));
    assert!(!parsed[0].unwrap().contains(&Address::V4(0x0a00_01fe)));
    assert!(parsed[2].unwrap().contains(&Address::V6(1)));
    assert!(!parsed[2].unwrap().contains(&Address::V6(2)));
    assert!(parsed[4].unwrap().contains(&Address::V4(0x0a00_ffff)));
    assert!(!parsed[4].unwrap().contains(&Address::V4(0x0a01_0000)));
}

#[test]
fn keep_valid_drops_none_and_keeps_order() {
    let a = Network::new(Address::V4(0x0a00_0000), 8).unwrap();
    let b = Network::new(Address::V4(0xc0a8_0000), 16).unwrap();
    let kept = keep_valid(&vec![None, Some(a), None, None, Some(b)]);
    assert_eq!(kept.len(), 2);
    assert!(kept[0].contains(&Address::V4(0x0a01_0203)));
    assert!(!kept[0].contains(&Address::V4(0xc0a8_0001)));
    assert!(kept[1].contains(&Address::V4(0xc0a8_0001)));
    assert!(keep_valid(&vec![None, None]).is_empty());
    assert!(keep_valid(&Vec::new()).is_empty());
}

#[test]
fn list_contains_is_exact() {
    let list = vec!["a".to_string(), "bc".to_string()];
    assert!(list_contains(&list, &"a".to_string()));
    assert!(list_contains(&list, &"bc".to_string()));
    assert!(!list_contains(&list, &"b".to_string()));
    assert!(!list_contains(&list, &"".to_string()));
    assert!(!list_contains(&Vec::new(), &"a".to_string()));
}

#[test]
fn decide_uses_the_given_reading() {
    let net = Network::new(Address::V4(0x0a00_0000), 24).unwrap();
    let filter = Blacklist::new(None, Some(vec!["10.0.0.5".to_string()]), Some(vec![net]));
    let msg = InputMessage {
        event: Note { id: "id7".to_string(), pubkey: "x".to_string() },
        source_info: "somewhere".to_string(),
    };
    let out = filter.decide(&msg, Some(Address::V4(0x0a00_0009)));
    assert_eq!(out.id, "id7");
    assert_eq!(out.action, Action::Reject);
    assert_eq!(out.msg, Some("blocked: pubkey/ip is blacklisted".to_string()));
    let out = filter.decide(&msg, Some(Address::V4(0x0a00_0109)));
    assert_eq!(out.action, Action::Accept);
    assert_eq!(out.msg, None);
    let out = filter.decide(&msg, None);
    assert_eq!(out.action, Action::Accept);
    assert!(filter.is_address_blocked("10.0.0.5", None));
    assert!(!filter.is_address_blocked("10.0.0.9", None));
    assert!(filter.is_address_blocked("10.0.0.9", Some(Address::V4(0x0a00_0009))));
    assert!(filter.is_range_blocked(&Address::V4(0x0a00_0009)));
    assert!(!filter.is_range_blocked(&Address::V6(0x0a00_0009)));
}

#[test]
fn output_message_new_keeps_its_parts() {
    let out = OutputMessage::new("id".to_string(), Action::Reject, Some("why".to_string()));
    assert_eq!(out.id, "id");
    assert_eq!(out.action, Action::Reject);
    assert_eq!(out.msg, Some("why".to_string()));
}

#[test]
fn address_reading_at_the_edges() {
    assert_eq!(parse_address("::"), Some(Address::V6(0)));
    assert_eq!(parse_address("::ffff:1.2.3.4"), Some(Address::V6(0xffff_0102_0304)));
    assert_eq!(
        parse_address("1:2:3:4:5:6:7:8"),
        Some(Address::V6(0x0001_0002_0003_0004_0005_0006_0007_0008))
    );
    assert_eq!(
        parse_address("1:2:3:4:5:6:1.2.3.4"),
        Some(Address::V6(0x0001_0002_0003_0004_0005_0006_0102_0304))
    );
    for text in [
        "256.0.0.1", "1.2.3", "1.2.3.4.5", "01.2.3.4", "1.2.3.4/", "/1.2.3.4", " ", " 1.2.3.4",
        "2001:db8::1::", "1.2.3.4::", "fe80::1%eth0", "[::1]", "1:2:3:4:5:6:7:8:9", "localhost",
        "1.2.3.4:80", "0x7f.0.0.1", "127.1", "1.2.3.4\n", "1.2.3.4/255.255.255.255",
    ] {
        assert_eq!(parse_address(text), None, "{}", text);
    }
}
