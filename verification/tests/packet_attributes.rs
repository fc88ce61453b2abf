use channel_event_attributes::channel::Order;
use channel_event_attributes::error::ChannelError;
use channel_event_attributes::event::EventAttribute;
use channel_event_attributes::height::{Height, TimeoutHeight};
use channel_event_attributes::identifiers::{ChannelId, ConnectionId, PortId, Sequence};
use channel_event_attributes::packet_attributes::{
    ChannelOrderingAttribute, DstChannelIdAttribute, DstPortIdAttribute,
    PacketConnectionIdAttribute, SequenceAttribute, SrcChannelIdAttribute, SrcPortIdAttribute,
    TimeoutHeightAttribute, TimeoutTimestampAttribute,
};
use channel_event_attributes::timestamp::Timestamp;

fn key_error(key: &str) -> ChannelError {
    ChannelError::InvalidAttributeKey { attribute_key: key.to_string() }
}

fn value_error(value: &str) -> ChannelError {
    ChannelError::InvalidAttributeValue { attribute_value: value.to_string() }
}

#[test]
fn timeout_height_never_is_written_as_zero_zero() {
    let attr = TimeoutHeightAttribute { timeout_height: TimeoutHeight::Never };
    let pair = EventAttribute::from(attr);
    assert_eq!(pair, EventAttribute::new("packet_timeout_height", "0-0"));
    assert_eq!(pair.value, b"0-0".to_vec());
}

#[test]
fn timeout_height_zero_zero_is_read_as_never() {
    let pair = EventAttribute::new("packet_timeout_height", "0-0");
    assert_eq!(
        TimeoutHeightAttribute::try_from(pair),
        Ok(TimeoutHeightAttribute { timeout_height: TimeoutHeight::Never })
    );
}

#[test]
fn timeout_height_at_a_height_round_trip() {
    let height = Height::new(3, 4567).unwrap();
    let attr = TimeoutHeightAttribute::from(TimeoutHeight::from(height));
    assert_eq!(attr.timeout_height, TimeoutHeight::At(height));
    let pair = EventAttribute::from(attr.clone());
    assert_eq!(pair, EventAttribute::new("packet_timeout_height", "3-4567"));
    assert_eq!(TimeoutHeightAttribute::try_from(pair), Ok(attr));
}

#[test]
fn timeout_height_of_the_largest_numbers_round_trip() {
    let height = Height::new(u64::MAX, u64::MAX).unwrap();
    let attr = TimeoutHeightAttribute { timeout_height: TimeoutHeight::At(height) };
    let pair = EventAttribute::from(attr.clone());
    assert_eq!(
        pair,
        EventAttribute::new("packet_timeout_height", "18446744073709551615-18446744073709551615")
    );
    assert_eq!(TimeoutHeightAttribute::try_from(pair), Ok(attr));
}

#[test]
fn timeout_height_in_revision_zero_is_not_never() {
    let pair = EventAttribute::new("packet_timeout_height", "0-1");
    assert_eq!(
        TimeoutHeightAttribute::try_from(pair),
        Ok(TimeoutHeightAttribute {
            timeout_height: TimeoutHeight::At(Height::new(0, 1).unwrap()),
        })
    );
}

#[test]
fn timeout_height_refuses_what_spells_no_height() {
    for value in ["", "0", "1-0", "+1-00", "0-", "-0", "0--0", "1_2", "1-2-3", "-1", "1-",
        "a-b", "18446744073709551616-1", "0-18446744073709551616", " 1-2", "1-2 ", " 0-0", "0-0 "]
    {
        assert_eq!(
            TimeoutHeightAttribute::try_from(EventAttribute::new("packet_timeout_height", value)),
            Err(value_error(value)),
            "value {:?}",
            value
        );
    }
}

#[test]
fn timeout_height_of_revision_zero_and_height_zero_is_never_however_written() {
    for value in ["0-0", "00-0", "0-00", "+0-0", "0-+0", "+000-+000"] {
        assert_eq!(
            TimeoutHeightAttribute::try_from(EventAttribute::new("packet_timeout_height", value)),
            Ok(TimeoutHeightAttribute { timeout_height: TimeoutHeight::Never }),
            "value {:?}",
            value
        );
    }
}

#[test]
fn timeout_height_under_another_key_is_refused() {
    assert_eq!(
        TimeoutHeightAttribute::try_from(EventAttribute::new("packet_timeout_timestamp", "0-0")),
        Err(key_error("packet_timeout_timestamp"))
    );
}

#[test]
fn timeout_timestamp_round_trip() {
    let attr = TimeoutTimestampAttribute::from(
        Timestamp::from_nanoseconds(1_700_000_000_123_456_789).unwrap(),
    );
    let pair = EventAttribute::from(attr.clone());
    assert_eq!(pair, EventAttribute::new("packet_timeout_timestamp", "1700000000123456789"));
    assert_eq!(TimeoutTimestampAttribute::try_from(pair), Ok(attr));
}

#[test]
fn timeout_timestamp_zero_and_largest_round_trip() {
    for nanoseconds in [0u64, 1, 9, 10, 999_999_999, 1_000_000_000, u64::MAX] {
        let attr = TimeoutTimestampAttribute {
            timeout_timestamp: Timestamp::from_nanoseconds(nanoseconds).unwrap(),
        };
        let pair = EventAttribute::from(attr.clone());
        assert_eq!(pair.value, nanoseconds.to_string().into_bytes());
        let back = TimeoutTimestampAttribute::try_from(pair).unwrap();
        assert_eq!(back.timeout_timestamp.nanoseconds(), nanoseconds);
        assert_eq!(back, attr);
    }
}

#[test]
fn timeout_timestamp_reads_a_sign_and_leading_zeros() {
    let pair = EventAttribute::new("packet_timeout_timestamp", "+0042");
    let back = TimeoutTimestampAttribute::try_from(pair).unwrap();
    assert_eq!(back.timeout_timestamp.nanoseconds(), 42);
}

#[test]
fn timeout_timestamp_refuses_what_spells_no_count() {
    for value in ["", "+", "-1", "1.5", "12a", " 12", "18446744073709551616", "0x10", "1_000"] {
        assert_eq!(
            TimeoutTimestampAttribute::try_from(EventAttribute::new(
                "packet_timeout_timestamp",
                value
            )),
            Err(value_error(value)),
            "value {:?}",
            value
        );
    }
}

#[test]
fn sequence_attribute_round_trip() {
    for number in [0u64, 7, 10, 12345, u64::MAX] {
        let attr = SequenceAttribute::from(Sequence::from(number));
        assert_eq!(attr.sequence.value(), number);
        let pair = EventAttribute::from(attr.clone());
        assert_eq!(pair, EventAttribute::new("packet_sequence", &number.to_string()));
        assert_eq!(SequenceAttribute::try_from(pair), Ok(attr));
    }
}

#[test]
fn sequence_attribute_refuses_what_spells_no_number() {
    for value in ["", "one", "-3", "3 ", "18446744073709551616"] {
        assert_eq!(
            SequenceAttribute::try_from(EventAttribute::new("packet_sequence", value)),
            Err(value_error(value))
        );
    }
    let not_text = EventAttribute { key: b"packet_sequence".to_vec(), value: vec![0x31, 0xff] };
    assert_eq!(SequenceAttribute::try_from(not_text), Err(value_error("")));
}

#[test]
fn source_and_destination_attributes_round_trip() {
    let port = PortId::from_str("transfer").unwrap();
    let channel = ChannelId::from_str("channel-5").unwrap();

    let attr = SrcPortIdAttribute::from(port.clone());
    let pair = EventAttribute::from(attr.clone());
    assert_eq!(pair, EventAttribute::new("packet_src_port", "transfer"));
    assert_eq!(SrcPortIdAttribute::try_from(pair), Ok(attr));

    let attr = SrcChannelIdAttribute::from(channel.clone());
    let pair = EventAttribute::from(attr.clone());
    assert_eq!(pair, EventAttribute::new("packet_src_channel", "channel-5"));
    assert_eq!(SrcChannelIdAttribute::try_from(pair), Ok(attr));

    let attr = DstPortIdAttribute::from(port);
    let pair = EventAttribute::from(attr.clone());
    assert_eq!(pair, EventAttribute::new("packet_dst_port", "transfer"));
    assert_eq!(DstPortIdAttribute::try_from(pair), Ok(attr));

    let attr = DstChannelIdAttribute::from(channel);
    let pair = EventAttribute::from(attr.clone());
    assert_eq!(pair, EventAttribute::new("packet_dst_channel", "channel-5"));
    assert_eq!(DstChannelIdAttribute::try_from(pair), Ok(attr));
}

#[test]
fn source_and_destination_keys_are_told_apart() {
    let src_port = EventAttribute::new("packet_src_port", "transfer");
    let src_channel = EventAttribute::new("packet_src_channel", "channel-5");
    assert_eq!(DstPortIdAttribute::try_from(src_port.clone()), Err(key_error("packet_src_port")));
    assert_eq!(
        SrcChannelIdAttribute::try_from(src_port),
        Err(key_error("packet_src_port"))
    );
    assert_eq!(
        DstChannelIdAttribute::try_from(src_channel.clone()),
        Err(key_error("packet_src_channel"))
    );
    assert_eq!(SrcPortIdAttribute::try_from(src_channel), Err(key_error("packet_src_channel")));
}

#[test]
fn source_and_destination_refuse_bad_values() {
    assert_eq!(
        SrcPortIdAttribute::try_from(EventAttribute::new("packet_src_port", "x")),
        Err(value_error("x"))
    );
    assert_eq!(
        DstPortIdAttribute::try_from(EventAttribute::new("packet_dst_port", "a b")),
        Err(value_error("a b"))
    );
    assert_eq!(
        SrcChannelIdAttribute::try_from(EventAttribute::new("packet_src_channel", "channel-007")),
        Err(value_error("channel-007"))
    );
    assert_eq!(
        DstChannelIdAttribute::try_from(EventAttribute::new("packet_dst_channel", "connection-0")),
        Err(value_error("connection-0"))
    );
}

#[test]
fn channel_ordering_round_trip() {
    for (order, text) in [
        (Order::Unspecified, "ORDER_NONE_UNSPECIFIED"),
        (Order::Unordered, "ORDER_UNORDERED"),
        (Order::Ordered, "ORDER_ORDERED"),
    ] {
        let attr = ChannelOrderingAttribute::from(order);
        let pair = EventAttribute::from(attr.clone());
        assert_eq!(pair, EventAttribute::new("packet_channel_ordering", text));
        assert_eq!(ChannelOrderingAttribute::try_from(pair), Ok(attr));
    }
}

#[test]
fn channel_ordering_refuses_other_words() {
    for value in ["", "ORDERED", "order_ordered", "ORDER_ORDERED ", "ORDER_NONE"] {
        assert_eq!(
            ChannelOrderingAttribute::try_from(EventAttribute::new(
                "packet_channel_ordering",
                value
            )),
            Err(value_error(value))
        );
    }
}

#[test]
fn packet_connection_round_trip() {
    let attr = PacketConnectionIdAttribute::from(ConnectionId::from_str("connection-0").unwrap());
    let pair = EventAttribute::from(attr.clone());
    assert_eq!(pair, EventAttribute::new("packet_connection", "connection-0"));
    assert_eq!(PacketConnectionIdAttribute::try_from(pair), Ok(attr));
    assert_eq!(
        PacketConnectionIdAttribute::try_from(EventAttribute::new(
            "connection_id",
            "connection-0"
        )),
        Err(key_error("connection_id"))
    );
}
