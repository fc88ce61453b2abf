use channel_event_attributes::channel::{Order, Version};
use channel_event_attributes::event::EventAttribute;
use channel_event_attributes::height::{Height, TimeoutHeight};
use channel_event_attributes::identifiers::{ChannelId, ConnectionId, PortId, Sequence};
use channel_event_attributes::text::{as_text, same_bytes};
use channel_event_attributes::timestamp::Timestamp;

#[test]
fn port_id_takes_what_the_host_rules_take() {
    for good in ["transfer", "ab", "icahost", "wasm.cosmos1abc", "p-._+#[]<>9", "\u{e9}\u{e8}"]
    {
        let id = PortId::from_str(good).unwrap();
        assert_eq!(id.as_str(), good);
        assert_eq!(id.clone(), id);
        assert!(good.parse::<ibc_core_host_types::identifiers::PortId>().is_ok());
    }
    let longest = "a".repeat(128);
    assert_eq!(PortId::from_str(&longest).unwrap().as_str(), longest);
}

#[test]
fn port_id_refuses_what_the_host_rules_refuse() {
    let too_long = "a".repeat(129);
    for bad in ["", "p", "a/b", "a b", "a\tb", "tr@nsfer", too_long.as_str()] {
        assert!(PortId::from_str(bad).is_err(), "{:?}", bad);
        assert!(bad.parse::<ibc_core_host_types::identifiers::PortId>().is_err());
    }
}

#[test]
fn channel_id_is_the_word_a_hyphen_and_a_number() {
    for good in ["channel-0", "channel-1", "channel-10", "channel-18446744073709551615",
        "channel-+1", "channel-+0", "channel-+01"]
    {
        let id = ChannelId::from_str(good).unwrap();
        assert_eq!(id.as_str(), good);
        assert_eq!(id.clone(), id);
    }
    let padded = format!("channel-+{}1", "0".repeat(54));
    assert_eq!(padded.len(), 64);
    assert!(ChannelId::from_str(&padded).is_ok());
}

#[test]
fn channel_id_refuses_every_other_text() {
    let padded = format!("channel-+{}1", "0".repeat(55));
    assert_eq!(padded.len(), 65);
    for bad in ["", "channel", "channel-", "channel-00", "channel-01", "channel--1",
        "channel-18446744073709551616", "channel- 1", "channel-1 ", "channel-1a", "channel_1",
        "channels-1", "Channel-1", "connection-1", "channel-\u{663}", padded.as_str()]
    {
        assert!(ChannelId::from_str(bad).is_err(), "{:?}", bad);
    }
}

#[test]
fn connection_id_is_the_word_a_hyphen_and_a_number() {
    for good in ["connection-0", "connection-11", "connection-18446744073709551615",
        "connection-+7"]
    {
        let id = ConnectionId::from_str(good).unwrap();
        assert_eq!(id.as_str(), good);
        assert_eq!(id.clone(), id);
    }
    let padded = format!("connection-+{}1", "0".repeat(51));
    assert_eq!(padded.len(), 64);
    assert!(ConnectionId::from_str(&padded).is_ok());
    let padded = format!("connection-+{}1", "0".repeat(52));
    assert!(ConnectionId::from_str(&padded).is_err());
    for bad in ["", "connection", "connection-", "connection-01", "connection-x", "channel-0",
        "connection-18446744073709551616", "connection--0"]
    {
        assert!(ConnectionId::from_str(bad).is_err(), "{:?}", bad);
    }
}

#[test]
fn sequence_is_read_and_written_in_decimal() {
    assert_eq!(Sequence::from_str("0").unwrap().value(), 0);
    assert_eq!(Sequence::from_str("+12").unwrap().value(), 12);
    assert_eq!(Sequence::from_str("0012").unwrap().value(), 12);
    assert_eq!(Sequence::from_str("18446744073709551615").unwrap().value(), u64::MAX);
    assert!(Sequence::from_str("18446744073709551616").is_err());
    assert!(Sequence::from_str("").is_err());
    assert!(Sequence::from_str("+").is_err());
    assert!(Sequence::from_str("-0").is_err());
    assert!(Sequence::from_str("1 ").is_err());
    assert!(Sequence::from_str("\u{661}").is_err());
    assert_eq!(Sequence::from(0).to_string(), "0");
    assert_eq!(Sequence::from(90210).to_string(), "90210");
    assert_eq!(Sequence::from(u64::MAX).to_string(), "18446744073709551615");
    assert_eq!(Sequence { number: 5 }, Sequence::from(5));
}

#[test]
fn height_is_two_numbers_and_never_zero_within_the_revision() {
    assert_eq!(Height::new(1, 0), None);
    assert_eq!(Height::new(0, 0), None);
    let height = Height::new(2, 30).unwrap();
    assert_eq!(height.revision_number(), 2);
    assert_eq!(height.revision_height(), 30);
    assert_eq!(height.to_string(), "2-30");
    assert_eq!(Height::new(0, 1).unwrap().to_string(), "0-1");
    assert_eq!(Height::from_str("2-30").unwrap(), height);
    assert_eq!(Height::from_str("+2-030").unwrap(), height);
    for bad in ["", "-", "2", "2-", "-30", "2-0", "0-0", "2-30-1", "2--30", "2- 30", "a-1"] {
        assert!(Height::from_str(bad).is_err(), "{:?}", bad);
    }
}

#[test]
fn timeout_height_has_a_text_of_its_own_for_never() {
    assert_eq!(TimeoutHeight::Never.to_string(), "0-0");
    assert_eq!(TimeoutHeight::At(Height::new(1, 2).unwrap()).to_string(), "1-2");
    assert_eq!(TimeoutHeight::from_str("0-0").unwrap(), TimeoutHeight::Never);
    assert_eq!(
        TimeoutHeight::from_str("1-2").unwrap(),
        TimeoutHeight::At(Height::new(1, 2).unwrap())
    );
    assert_eq!(TimeoutHeight::from_str("0-00").unwrap(), TimeoutHeight::Never);
    assert!(TimeoutHeight::from_str("5-0").is_err());
    assert!(TimeoutHeight::from_str("0").is_err());
    assert!(TimeoutHeight::from_str("0-0-0").is_err());
}

#[test]
fn timestamp_keeps_its_count_of_nanoseconds() {
    for nanoseconds in [0u64, 1, 1_000_000_000, 1_700_000_000_000_000_000, u64::MAX] {
        let timestamp = Timestamp::from_nanoseconds(nanoseconds).unwrap();
        assert_eq!(timestamp.nanoseconds(), nanoseconds);
        assert_eq!(
            ibc_primitives::Timestamp::from_nanoseconds(nanoseconds).unwrap().nanoseconds(),
            nanoseconds
        );
    }
}

#[test]
fn order_has_three_words() {
    assert_eq!(Order::Unspecified.as_str(), "ORDER_NONE_UNSPECIFIED");
    assert_eq!(Order::Unordered.as_str(), "ORDER_UNORDERED");
    assert_eq!(Order::Ordered.as_str(), "ORDER_ORDERED");
    for order in [Order::Unspecified, Order::Unordered, Order::Ordered] {
        assert_eq!(Order::from_str(order.as_str()), Some(order));
    }
    assert_eq!(Order::from_str("ordered"), None);
    assert_eq!(Order::from_str(""), None);
}

#[test]
fn version_is_its_text() {
    assert_eq!(Version::from_str("ics20-1").as_str(), "ics20-1");
    assert_eq!(Version::new(String::new()).as_str(), "");
    assert_eq!(Version::from_str("a"), Version { text: "a".to_string() });
}

#[test]
fn event_attribute_holds_bytes() {
    let pair = EventAttribute::new("k\u{e9}y", "v\u{e4}lue");
    assert_eq!(pair.key_bytes(), "k\u{e9}y".as_bytes());
    assert_eq!(pair.value_bytes(), "v\u{e4}lue".as_bytes());
    assert_eq!(pair.key_str(), Some("k\u{e9}y"));
    assert_eq!(pair.value_str(), Some("v\u{e4}lue"));
    let raw = EventAttribute::with_value_bytes("key", vec![0xc0, 0x80]);
    assert_eq!(raw.key_str(), Some("key"));
    assert_eq!(raw.value_str(), None);
    assert_eq!(raw.value_bytes(), &[0xc0u8, 0x80][..]);
}

#[test]
fn text_is_well_formed_utf8_and_nothing_else() {
    assert_eq!(as_text(b""), Some(""));
    assert_eq!(as_text(b"plain"), Some("plain"));
    assert_eq!(as_text("\u{10ffff}".as_bytes()), Some("\u{10ffff}"));
    // An overlong form, a lone continuation byte, a surrogate, a cut-off sequence.
    assert_eq!(as_text(&[0xc0, 0xaf]), None);
    assert_eq!(as_text(&[0x80]), None);
    assert_eq!(as_text(&[0xed, 0xa0, 0x80]), None);
    assert_eq!(as_text(&[0xe2, 0x82]), None);
    assert_eq!(as_text(&[0xf4, 0x90, 0x80, 0x80]), None);
}

#[test]
fn same_bytes_compares_byte_for_byte() {
    assert!(same_bytes(b"", b""));
    assert!(same_bytes(b"abc", b"abc"));
    assert!(!same_bytes(b"abc", b"abd"));
    assert!(!same_bytes(b"abc", b"ab"));
    assert!(!same_bytes(b"", b"a"));
}
