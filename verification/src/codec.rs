//! The conversion that all attributes of one pair share: the key is checked, the value
//! is read as text, and the text is handed to the parser of the attribute's type.

use vstd::prelude::*;
use crate::channel::{order_text, parse_order, Order, Version};
use crate::decimal::{decimal_text, parse_u64, u64_from_text};
use crate::error::{invalid_key, invalid_value, ChannelError, ChannelErrorView};
use crate::event::{text_pair, EventAttribute, EventAttributeView};
use crate::height::{
    parse_timeout_height, timeout_height_text, TimeoutHeight, TimeoutHeightView,
};
use crate::identifiers::{
    parse_channel_id, parse_connection_id, parse_port_id, port_id_accepted, port_id_rule,
    ChannelId, ConnectionId, PortId, Sequence,
};
use crate::text::{bytes_of, same_bytes, text_of};
use crate::timestamp::{parse_timestamp, Timestamp};

verus! {

/// The text that `pair` holds as the value of the attribute of key `key`. The key of the
/// pair has to be `key`, byte for byte, and its value has to be text.
pub open spec fn decode_text(key: Seq<char>, pair: EventAttributeView) -> Result<
    Seq<char>,
    ChannelErrorView,
> {
    if pair.key != bytes_of(key) {
        Err(invalid_key(pair.key))
    } else {
        match text_of(pair.value) {
            Some(text) => Ok(text),
            None => Err(invalid_value(Seq::empty())),
        }
    }
}

/// What reading `pair` as the attribute of key `key` gives, for a type whose parser is
/// `parse`: what the parser makes of the text that the pair holds. A text that the
/// parser does not take is refused, and the refusal holds the text.
pub open spec fn decode_scalar<T>(
    key: Seq<char>,
    parse: spec_fn(Seq<char>) -> Option<T>,
    pair: EventAttributeView,
) -> Result<T, ChannelErrorView> {
    match decode_text(key, pair) {
        Ok(text) => match parse(text) {
            Some(value) => Ok(value),
            None => Err(invalid_value(text)),
        },
        Err(e) => Err(e),
    }
}

/// Whether the result `r` of a conversion is the result `expected` that its model gives.
pub open spec fn agrees<T: View>(
    r: Result<T, ChannelError>,
    expected: Result<T::V, ChannelErrorView>,
) -> bool {
    match r {
        Ok(v) => expected == Ok::<T::V, ChannelErrorView>(v@),
        Err(e) => expected == Err::<T::V, ChannelErrorView>(e@),
    }
}

/// The refusal of the value `text`.
pub fn refused_value(text: &str) -> (e: ChannelError)
    ensures
        e@ == invalid_value(text@),
{
    ChannelError::InvalidAttributeValue { attribute_value: text.to_owned() }
}

/// Reads the text that `pair` holds as the value of the attribute of key `key`.
pub fn read_text<'a>(pair: &'a EventAttribute, key: &str) -> (r: Result<&'a str, ChannelError>)
    ensures
        agrees(r, decode_text(key@, pair@)),
{
    if !same_bytes(pair.key_bytes(), key.as_bytes()) {
        let attribute_key = match pair.key_str() {
            Some(found) => found.to_owned(),
            None => String::new(),
        };
        return Err(ChannelError::InvalidAttributeKey { attribute_key });
    }
    match pair.value_str() {
        Some(text) => Ok(text),
        None => Err(ChannelError::InvalidAttributeValue { attribute_value: String::new() }),
    }
}

/// The pair that an identifier of text `id` is written as, under the key `key`.
pub open spec fn encode_identifier(key: Seq<char>, id: Seq<char>) -> EventAttributeView {
    text_pair(key, id)
}

/// The pair that the version of text `version` is written as, under the key `key`.
pub open spec fn encode_version(key: Seq<char>, version: Seq<char>) -> EventAttributeView {
    text_pair(key, version)
}

/// The pair that a sequence number is written as, under the key `key`: in decimal.
pub open spec fn encode_sequence(key: Seq<char>, sequence: u64) -> EventAttributeView {
    text_pair(key, decimal_text(sequence as nat))
}

/// The pair that an ordering is written as, under the key `key`.
pub open spec fn encode_order(key: Seq<char>, order: Order) -> EventAttributeView {
    text_pair(key, order_text(order))
}

/// The pair that a timeout height is written as, under the key `key`.
pub open spec fn encode_timeout_height(
    key: Seq<char>,
    timeout: TimeoutHeightView,
) -> EventAttributeView {
    text_pair(key, timeout_height_text(timeout))
}

/// The pair that a timeout time is written as, under the key `key`: its count of
/// nanoseconds, in decimal.
pub open spec fn encode_timestamp(key: Seq<char>, nanoseconds: u64) -> EventAttributeView {
    text_pair(key, decimal_text(nanoseconds as nat))
}

/// The port identifier that `pair` is read as, under the key `key`.
pub open spec fn decode_port_id(key: Seq<char>, pair: EventAttributeView) -> Result<
    Seq<char>,
    ChannelErrorView,
> {
    decode_scalar(key, |text: Seq<char>| parse_port_id(text), pair)
}

/// The channel identifier that `pair` is read as, under the key `key`.
pub open spec fn decode_channel_id(key: Seq<char>, pair: EventAttributeView) -> Result<
    Seq<char>,
    ChannelErrorView,
> {
    decode_scalar(key, |text: Seq<char>| parse_channel_id(text), pair)
}

/// The connection identifier that `pair` is read as, under the key `key`.
pub open spec fn decode_connection_id(key: Seq<char>, pair: EventAttributeView) -> Result<
    Seq<char>,
    ChannelErrorView,
> {
    decode_scalar(key, |text: Seq<char>| parse_connection_id(text), pair)
}

/// The version that `pair` is read as, under the key `key`: any text is a version.
pub open spec fn decode_version(key: Seq<char>, pair: EventAttributeView) -> Result<
    Seq<char>,
    ChannelErrorView,
> {
    decode_scalar(key, |text: Seq<char>| Some(text), pair)
}

/// The sequence number that `pair` is read as, under the key `key`.
pub open spec fn decode_sequence(key: Seq<char>, pair: EventAttributeView) -> Result<
    u64,
    ChannelErrorView,
> {
    decode_scalar(key, |text: Seq<char>| parse_u64(text), pair)
}

/// The ordering that `pair` is read as, under the key `key`.
pub open spec fn decode_order(key: Seq<char>, pair: EventAttributeView) -> Result<
    Order,
    ChannelErrorView,
> {
    decode_scalar(key, |text: Seq<char>| parse_order(text), pair)
}

/// The timeout height that `pair` is read as, under the key `key`.
pub open spec fn decode_timeout_height(key: Seq<char>, pair: EventAttributeView) -> Result<
    TimeoutHeightView,
    ChannelErrorView,
> {
    decode_scalar(key, |text: Seq<char>| parse_timeout_height(text), pair)
}

/// The timeout time that `pair` is read as, under the key `key`.
pub open spec fn decode_timestamp(key: Seq<char>, pair: EventAttributeView) -> Result<
    u64,
    ChannelErrorView,
> {
    decode_scalar(key, |text: Seq<char>| parse_timestamp(text), pair)
}

/// Reads `pair` as a port identifier under the key `key`. What is known of whether a
/// text is accepted as a port identifier holds of the text that was read.
pub fn read_port_id(pair: &EventAttribute, key: &str) -> (r: Result<PortId, ChannelError>)
    ensures
        agrees(r, decode_port_id(key@, pair@)),
        decode_text(key@, pair@) matches Ok(text) ==> port_id_rule(text, port_id_accepted(text)),
{
    let text = read_text(pair, key)?;
    match PortId::from_str(text) {
        Ok(id) => Ok(id),
        Err(_) => Err(refused_value(text)),
    }
}

/// Reads `pair` as a channel identifier under the key `key`.
pub fn read_channel_id(pair: &EventAttribute, key: &str) -> (r: Result<ChannelId, ChannelError>)
    ensures
        agrees(r, decode_channel_id(key@, pair@)),
{
    let text = read_text(pair, key)?;
    match ChannelId::from_str(text) {
        Ok(id) => Ok(id),
        Err(_) => Err(refused_value(text)),
    }
}

/// Reads `pair` as a connection identifier under the key `key`.
pub fn read_connection_id(pair: &EventAttribute, key: &str) -> (r: Result<
    ConnectionId,
    ChannelError,
>)
    ensures
        agrees(r, decode_connection_id(key@, pair@)),
{
    let text = read_text(pair, key)?;
    match ConnectionId::from_str(text) {
        Ok(id) => Ok(id),
        Err(_) => Err(refused_value(text)),
    }
}

/// Reads `pair` as a version under the key `key`.
pub fn read_version(pair: &EventAttribute, key: &str) -> (r: Result<Version, ChannelError>)
    ensures
        agrees(r, decode_version(key@, pair@)),
{
    let text = read_text(pair, key)?;
    Ok(Version::from_str(text))
}

/// Reads `pair` as a sequence number under the key `key`.
pub fn read_sequence(pair: &EventAttribute, key: &str) -> (r: Result<Sequence, ChannelError>)
    ensures
        agrees(r, decode_sequence(key@, pair@)),
{
    let text = read_text(pair, key)?;
    match Sequence::from_str(text) {
        Ok(sequence) => Ok(sequence),
        Err(_) => Err(refused_value(text)),
    }
}

/// Reads `pair` as an ordering under the key `key`.
pub fn read_order(pair: &EventAttribute, key: &str) -> (r: Result<Order, ChannelError>)
    ensures
        agrees(r, decode_order(key@, pair@)),
{
    let text = read_text(pair, key)?;
    match Order::from_str(text) {
        Some(order) => Ok(order),
        None => Err(refused_value(text)),
    }
}

/// Reads `pair` as a timeout height under the key `key`.
pub fn read_timeout_height(pair: &EventAttribute, key: &str) -> (r: Result<
    TimeoutHeight,
    ChannelError,
>)
    ensures
        agrees(r, decode_timeout_height(key@, pair@)),
{
    let text = read_text(pair, key)?;
    match TimeoutHeight::from_str(text) {
        Ok(timeout) => Ok(timeout),
        Err(_) => Err(refused_value(text)),
    }
}

/// Reads `pair` as a timeout time under the key `key`: a decimal count of nanoseconds.
/// A count that made no time would be refused with the text, as a text that spells no
/// count is.
pub fn read_timestamp(pair: &EventAttribute, key: &str) -> (r: Result<Timestamp, ChannelError>)
    ensures
        agrees(r, decode_timestamp(key@, pair@)),
{
    let text = read_text(pair, key)?;
    match u64_from_text(text) {
        Some(nanoseconds) => match Timestamp::from_nanoseconds(nanoseconds) {
            Ok(timestamp) => Ok(timestamp),
            Err(_) => Err(refused_value(text)),
        },
        None => Err(refused_value(text)),
    }
}

} // verus!
