use channel_event_attributes::channel::Version;
use channel_event_attributes::channel_attributes::{
    ChannelIdAttribute, ConnectionIdAttribute, CounterpartyChannelIdAttribute,
    CounterpartyPortIdAttribute, PortIdAttribute, VersionAttribute,
};
use channel_event_attributes::error::ChannelError;
use channel_event_attributes::event::EventAttribute;
use channel_event_attributes::identifiers::{ChannelId, ConnectionId, PortId};

fn invalid_key(key: &str) -> ChannelError {
    ChannelError::InvalidAttributeKey { attribute_key: key.to_string() }
}

fn invalid_value(value: &str) -> ChannelError {
    ChannelError::InvalidAttributeValue { attribute_value: value.to_string() }
}

#[test]
fn channel_id_attribute_end_to_end() {
    let attr = ChannelIdAttribute { channel_id: ChannelId::from_str("channel-0").unwrap() };
    let pair = EventAttribute::from(attr.clone());
    assert_eq!(pair, EventAttribute::new("channel_id", "channel-0"));
    assert_eq!(pair.key, b"channel_id".to_vec());
    assert_eq!(pair.value, b"channel-0".to_vec());
    assert_eq!(ChannelIdAttribute::try_from(pair), Ok(attr));
    assert_eq!(
        ChannelIdAttribute::try_from(EventAttribute::new("wrong_key", "channel-0")),
        Err(invalid_key("wrong_key"))
    );
}

#[test]
fn port_id_attribute_round_trip() {
    let attr = PortIdAttribute::from(PortId::from_str("transfer").unwrap());
    let pair: EventAttribute = attr.clone().into();
    assert_eq!(pair, EventAttribute::new("port_id", "transfer"));
    assert_eq!(PortIdAttribute::try_from(pair), Ok(attr));
}

#[test]
fn port_id_attribute_refuses_a_bad_value_with_the_value() {
    assert_eq!(
        PortIdAttribute::try_from(EventAttribute::new("port_id", "p")),
        Err(invalid_value("p"))
    );
    assert_eq!(
        PortIdAttribute::try_from(EventAttribute::new("port_id", "has/slash")),
        Err(invalid_value("has/slash"))
    );
}

#[test]
fn counterparty_port_id_attribute_round_trip() {
    let attr = CounterpartyPortIdAttribute {
        counterparty_port_id: PortId::from_str("icahost").unwrap(),
    };
    let pair = EventAttribute::from(attr.clone());
    assert_eq!(pair, EventAttribute::new("counterparty_port_id", "icahost"));
    assert_eq!(CounterpartyPortIdAttribute::try_from(pair), Ok(attr));
}

#[test]
fn counterparty_channel_id_attribute_round_trip() {
    let id = ChannelId::from_str("channel-27").unwrap();
    let attr = CounterpartyChannelIdAttribute::from(id.clone());
    assert_eq!(attr.as_ref(), &id);
    let pair = EventAttribute::from(attr.clone());
    assert_eq!(pair, EventAttribute::new("counterparty_channel_id", "channel-27"));
    assert_eq!(CounterpartyChannelIdAttribute::try_from(pair), Ok(attr));
}

#[test]
fn connection_id_attribute_round_trip() {
    let attr = ConnectionIdAttribute {
        connection_id: ConnectionId::from_str("connection-11").unwrap(),
    };
    let pair = EventAttribute::from(attr.clone());
    assert_eq!(pair, EventAttribute::new("connection_id", "connection-11"));
    assert_eq!(ConnectionIdAttribute::try_from(pair), Ok(attr));
    assert_eq!(
        ConnectionIdAttribute::try_from(EventAttribute::new("connection_id", "channel-11")),
        Err(invalid_value("channel-11"))
    );
}

#[test]
fn version_attribute_round_trip() {
    let attr = VersionAttribute { version: Version::new("ics20-1".to_string()) };
    let pair = EventAttribute::from(attr.clone());
    assert_eq!(pair, EventAttribute::new("version", "ics20-1"));
    assert_eq!(VersionAttribute::try_from(pair), Ok(attr));
}

#[test]
fn version_attribute_takes_any_text() {
    let empty = VersionAttribute::try_from(EventAttribute::new("version", "")).unwrap();
    assert_eq!(empty.version.as_str(), "");
    let odd = VersionAttribute::try_from(EventAttribute::new("version", " {\"fee\": 1} \u{e9}"))
        .unwrap();
    assert_eq!(odd.version.as_str(), " {\"fee\": 1} \u{e9}");
}

#[test]
fn a_key_of_another_attribute_is_refused_whatever_the_value() {
    let good = EventAttribute::new("channel_id", "transfer");
    assert_eq!(PortIdAttribute::try_from(good), Err(invalid_key("channel_id")));
    let bad = EventAttribute::new("channel_id", "\u{0}");
    assert_eq!(PortIdAttribute::try_from(bad), Err(invalid_key("channel_id")));
    let not_text = EventAttribute { key: b"channel_id".to_vec(), value: vec![0xff, 0xfe] };
    assert_eq!(PortIdAttribute::try_from(not_text), Err(invalid_key("channel_id")));
    assert_eq!(
        VersionAttribute::try_from(EventAttribute::new("Version", "v")),
        Err(invalid_key("Version"))
    );
    assert_eq!(
        ChannelIdAttribute::try_from(EventAttribute::new("channel_id ", "channel-0")),
        Err(invalid_key("channel_id "))
    );
    assert_eq!(
        CounterpartyChannelIdAttribute::try_from(EventAttribute::new("channel_id", "channel-0")),
        Err(invalid_key("channel_id"))
    );
    assert_eq!(
        CounterpartyPortIdAttribute::try_from(EventAttribute::new("port_id", "transfer")),
        Err(invalid_key("port_id"))
    );
    assert_eq!(
        ConnectionIdAttribute::try_from(EventAttribute::new("", "connection-0")),
        Err(invalid_key(""))
    );
}

#[test]
fn a_key_that_is_not_text_is_reported_as_empty() {
    let pair = EventAttribute { key: vec![0xc3, 0x28], value: b"transfer".to_vec() };
    assert_eq!(PortIdAttribute::try_from(pair), Err(invalid_key("")));
}

#[test]
fn a_value_that_is_not_text_is_reported_as_empty() {
    let pair = EventAttribute { key: b"port_id".to_vec(), value: vec![0x80] };
    assert_eq!(PortIdAttribute::try_from(pair), Err(invalid_value("")));
    let pair = EventAttribute { key: b"version".to_vec(), value: vec![0xe2, 0x82] };
    assert_eq!(VersionAttribute::try_from(pair), Err(invalid_value("")));
}

#[test]
fn channel_id_attribute_refuses_what_is_no_channel_id() {
    for value in ["channel-", "channel-01", "channel", "chan-0", "channel-x", "Channel-0", ""] {
        assert_eq!(
            ChannelIdAttribute::try_from(EventAttribute::new("channel_id", value)),
            Err(invalid_value(value))
        );
    }
}
