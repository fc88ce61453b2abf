//! What holds of every conversion: what is written is read back, a pair under another
//! key is refused, and the two forms of a payload are held to each other.

use vstd::prelude::*;
use vstd::utf8::valid_utf8;
use crate::channel::{lemma_parse_order_text, order_text, Order, Version};
use crate::codec::{
    decode_channel_id, decode_connection_id, decode_order, decode_port_id, decode_scalar,
    decode_sequence, decode_timeout_height, decode_timestamp, decode_version, encode_identifier,
    encode_order, encode_sequence, encode_timeout_height, encode_timestamp, encode_version,
};
use crate::decimal::{decimal_text, lemma_parse_decimal_text};
use crate::error::{invalid_key, invalid_value, ChannelErrorView};
use crate::event::{text_pair, EventAttributeView};
use crate::height::{
    lemma_parse_timeout_height_text, timeout_height_text, Height, TimeoutHeight,
    TimeoutHeightView,
};
use crate::hex::{
    hex_decoded, hex_text, lemma_hex_is_text, lemma_hex_round_trip, lemma_hex_text_is_text,
    lemma_hex_text_of_hex_bytes,
};
use crate::identifiers::{ChannelId, ConnectionId, PortId, Sequence};
use crate::keys::{
    attribute_keys, law_keys_are_distinct, PKT_DATA_ATTRIBUTE_KEY, PKT_DATA_HEX_ATTRIBUTE_KEY,
};
use crate::packet_attributes::PacketDataAttribute;
use crate::payload::{decode_payload, encode_payload, first_value_of, reconciled};
use crate::text::{bytes_of, lemma_text_of_bytes_of, text_of};
use crate::timestamp::Timestamp;

verus! {

/// Whether `r` is the refusal of a pair for its key `found`.
pub open spec fn refused_for_key<T>(r: Result<T, ChannelErrorView>, found: Seq<u8>) -> bool {
    r matches Err(e) && e == invalid_key(found) && e is InvalidAttributeKey
}

/// A pair that was written under `key` with the text `text` as its value is read, under
/// the same key, as whatever the parser makes of `text`.
pub proof fn law_scalar_round_trip<T>(
    key: Seq<char>,
    parse: spec_fn(Seq<char>) -> Option<T>,
    text: Seq<char>,
    value: T,
)
    requires
        parse(text) == Some(value),
    ensures
        decode_scalar(key, parse, text_pair(key, text)) == Ok::<T, ChannelErrorView>(value),
{
    lemma_text_of_bytes_of(text);
}

/// A pair whose key is not the expected one is refused for its key, whatever its value
/// holds and whichever attribute it is read as.
pub proof fn law_other_key_is_refused(key: Seq<char>, pair: EventAttributeView)
    requires
        pair.key != bytes_of(key),
    ensures
        refused_for_key(decode_port_id(key, pair), pair.key),
        refused_for_key(decode_channel_id(key, pair), pair.key),
        refused_for_key(decode_connection_id(key, pair), pair.key),
        refused_for_key(decode_version(key, pair), pair.key),
        refused_for_key(decode_sequence(key, pair), pair.key),
        refused_for_key(decode_order(key, pair), pair.key),
        refused_for_key(decode_timeout_height(key, pair), pair.key),
        refused_for_key(decode_timestamp(key, pair), pair.key),
{
}

/// A pair that was written under one of the keys stands under none of the others, so
/// it is refused where an attribute of another key is asked for.
pub proof fn law_written_key_is_not_another(i: int, j: int, value: Seq<char>)
    requires
        0 <= i < 19,
        0 <= j < 19,
        i != j,
    ensures
        text_pair(attribute_keys()[i], value).key != bytes_of(attribute_keys()[j]),
{
    law_keys_are_distinct();
    lemma_keys_differ(attribute_keys()[i], attribute_keys()[j]);
}

/// A port identifier that is written under a key is read back under that key.
pub proof fn law_port_id_round_trip(key: Seq<char>, id: PortId)
    requires
        id.wf(),
    ensures
        decode_port_id(key, encode_identifier(key, id@)) == Ok::<Seq<char>, ChannelErrorView>(
            id@,
        ),
{
    lemma_text_of_bytes_of(id@);
}

/// A channel identifier that is written under a key is read back under that key.
pub proof fn law_channel_id_round_trip(key: Seq<char>, id: ChannelId)
    requires
        id.wf(),
    ensures
        decode_channel_id(key, encode_identifier(key, id@)) == Ok::<Seq<char>, ChannelErrorView>(
            id@,
        ),
{
    lemma_text_of_bytes_of(id@);
}

/// A connection identifier that is written under a key is read back under that key.
pub proof fn law_connection_id_round_trip(key: Seq<char>, id: ConnectionId)
    requires
        id.wf(),
    ensures
        decode_connection_id(key, encode_identifier(key, id@)) == Ok::<Seq<char>, ChannelErrorView>(
            id@,
        ),
{
    lemma_text_of_bytes_of(id@);
}

/// A version that is written under a key is read back under that key.
pub proof fn law_version_round_trip(key: Seq<char>, version: Version)
    ensures
        decode_version(key, encode_version(key, version@)) == Ok::<Seq<char>, ChannelErrorView>(
            version@,
        ),
{
    lemma_text_of_bytes_of(version@);
}

/// A sequence number that is written under a key is read back under that key.
pub proof fn law_sequence_round_trip(key: Seq<char>, sequence: Sequence)
    ensures
        decode_sequence(key, encode_sequence(key, sequence@)) == Ok::<
            u64,
            ChannelErrorView,
        >(sequence@),
{
    lemma_parse_decimal_text(sequence@);
    lemma_text_of_bytes_of(decimal_text(sequence@ as nat));
}

/// An ordering that is written under a key is read back under that key.
pub proof fn law_order_round_trip(key: Seq<char>, order: Order)
    ensures
        decode_order(key, encode_order(key, order)) == Ok::<Order, ChannelErrorView>(order),
{
    lemma_parse_order_text(order);
    lemma_text_of_bytes_of(order_text(order));
}

/// A timeout height that is written under a key is read back under that key: no timeout
/// from `0-0`, a height from its own text.
pub proof fn law_timeout_height_round_trip(key: Seq<char>, timeout: TimeoutHeight)
    requires
        timeout matches TimeoutHeight::At(height) ==> height.wf(),
    ensures
        decode_timeout_height(key, encode_timeout_height(key, timeout@)) == Ok::<
            TimeoutHeightView,
            ChannelErrorView,
        >(timeout@),
{
    lemma_parse_timeout_height_text(timeout@);
    lemma_text_of_bytes_of(timeout_height_text(timeout@));
}

/// The text `0-0` is kept for no timeout: no height is written as it.
pub proof fn law_never_text_is_reserved(height: Height)
    requires
        height.wf(),
    ensures
        timeout_height_text(TimeoutHeight::At(height)@) != timeout_height_text(
            TimeoutHeight::Never@,
        ),
        timeout_height_text(TimeoutHeight::Never@) == "0-0"@,
{
    lemma_parse_timeout_height_text(TimeoutHeight::At(height)@);
    lemma_parse_timeout_height_text(TimeoutHeight::Never@);
}

/// A timeout time that is written under a key is read back under that key.
pub proof fn law_timestamp_round_trip(key: Seq<char>, timestamp: Timestamp)
    ensures
        decode_timestamp(key, encode_timestamp(key, timestamp@)) == Ok::<
            u64,
            ChannelErrorView,
        >(timestamp@),
{
    lemma_parse_decimal_text(timestamp@);
    lemma_text_of_bytes_of(decimal_text(timestamp@ as nat));
}

/// Both the key and the value of a pair that holds two texts are text.
pub proof fn law_text_pair_is_text(key: Seq<char>, value: Seq<char>)
    ensures
        text_of(text_pair(key, value).key) == Some(key),
        text_of(text_pair(key, value).value) == Some(value),
{
    lemma_text_of_bytes_of(key);
    lemma_text_of_bytes_of(value);
}

/// Two different keys are written as different bytes.
pub proof fn lemma_keys_differ(key: Seq<char>, other: Seq<char>)
    requires
        key != other,
    ensures
        bytes_of(key) != bytes_of(other),
{
    lemma_text_of_bytes_of(key);
    lemma_text_of_bytes_of(other);
}

/// A payload that is text is written as two pairs, both of text, and is read back from
/// them.
pub proof fn law_payload_round_trip(key: Seq<char>, hex_key: Seq<char>, bytes: Seq<u8>)
    requires
        key != hex_key,
        valid_utf8(bytes),
    ensures
        encode_payload(key, hex_key, bytes) matches Ok(pairs) && pairs.len() == 2
            && text_of(pairs[0].value) is Some && text_of(pairs[1].value) is Some
            && decode_payload(key, hex_key, pairs) == Ok::<Seq<u8>, ChannelErrorView>(bytes),
{
    let pairs = encode_payload(key, hex_key, bytes)->Ok_0;
    lemma_keys_differ(key, hex_key);
    lemma_hex_round_trip(bytes);
    lemma_hex_text_is_text(bytes);
    assert(pairs.drop_first() =~= seq![pairs[1]]);
    assert(first_value_of(pairs.drop_first(), bytes_of(hex_key)) == Some(hex_text(bytes)));
}

/// A payload that is not text is not written, though its hexadecimal form is text.
pub proof fn law_payload_must_be_text(key: Seq<char>, hex_key: Seq<char>, bytes: Seq<u8>)
    requires
        !valid_utf8(bytes),
    ensures
        encode_payload(key, hex_key, bytes) == Err::<Seq<EventAttributeView>, ChannelErrorView>(
            ChannelErrorView::NonUtf8PacketData,
        ),
        valid_utf8(hex_text(bytes)),
{
    lemma_hex_text_is_text(bytes);
}

/// A payload is read from two pairs and from no other number of them.
pub proof fn law_payload_needs_two_pairs(
    key: Seq<char>,
    hex_key: Seq<char>,
    pairs: Seq<EventAttributeView>,
)
    requires
        pairs.len() != 2,
    ensures
        decode_payload(key, hex_key, pairs) == Err::<Seq<u8>, ChannelErrorView>(
            ChannelErrorView::InvalidAttributeCount { expected: 2, actual: pairs.len() },
        ),
{
}

/// Where the plain form and the hexadecimal form are both there and stand for different
/// bytes, the payload is refused as mismatched; where they stand for the same bytes, it
/// is those bytes.
pub proof fn law_payload_forms_must_agree(plain: Seq<u8>, hex: Seq<u8>, decoded: Seq<u8>)
    requires
        hex_decoded(hex) == Some(decoded),
    ensures
        decoded != plain ==> reconciled(Some(plain), Some(hex)) == Err::<
            Seq<u8>,
            ChannelErrorView,
        >(ChannelErrorView::MismatchedPacketData),
        decoded == plain ==> reconciled(Some(plain), Some(hex)) == Ok::<
            Seq<u8>,
            ChannelErrorView,
        >(plain),
{
}

/// A hexadecimal form that is there and is not hexadecimal is refused, whether or not a
/// plain form stands beside it. Bytes that are not text are not hexadecimal.
pub proof fn law_malformed_hex_is_refused(plain: Option<Seq<u8>>, hex: Seq<u8>)
    ensures
        hex_decoded(hex) is None ==> reconciled(plain, Some(hex)) == Err::<
            Seq<u8>,
            ChannelErrorView,
        >(invalid_value(Seq::empty())),
        !valid_utf8(hex) ==> hex_decoded(hex) is None,
{
    if hex_decoded(hex) is Some {
        lemma_hex_is_text(hex);
    }
}

/// A pair under the key of the hexadecimal form is never passed over: where its value
/// is not hexadecimal, the two pairs are refused, in either order, whatever the plain
/// form holds.
pub proof fn law_hex_pair_is_always_read(
    key: Seq<char>,
    hex_key: Seq<char>,
    plain: Seq<u8>,
    hex: Seq<u8>,
)
    requires
        key != hex_key,
        hex_decoded(hex) is None,
    ensures
        ({
            let plain_pair = EventAttributeView { key: bytes_of(key), value: plain };
            let hex_pair = EventAttributeView { key: bytes_of(hex_key), value: hex };
            let refused = Err::<Seq<u8>, ChannelErrorView>(invalid_value(Seq::empty()));
            &&& decode_payload(key, hex_key, seq![plain_pair, hex_pair]) == refused
            &&& decode_payload(key, hex_key, seq![hex_pair, plain_pair]) == refused
        }),
{
    let plain_pair = EventAttributeView { key: bytes_of(key), value: plain };
    let hex_pair = EventAttributeView { key: bytes_of(hex_key), value: hex };
    lemma_keys_differ(key, hex_key);
    let first = seq![plain_pair, hex_pair];
    let second = seq![hex_pair, plain_pair];
    assert(first.drop_first() =~= seq![hex_pair]);
    assert(second.drop_first() =~= seq![plain_pair]);
    assert(first_value_of(first.drop_first(), bytes_of(hex_key)) == Some(hex));
    assert(first_value_of(second.drop_first(), bytes_of(key)) == Some(plain));
}

/// Where both forms are there and the hexadecimal form is hexadecimal, the payload is
/// accepted if and only if the hexadecimal form is the hexadecimal text of the plain
/// form.
pub proof fn law_agreeing_hex_is_the_hex_text(plain: Seq<u8>, hex: Seq<u8>)
    requires
        hex_decoded(hex) is Some,
    ensures
        reconciled(Some(plain), Some(hex)) is Ok <==> hex == hex_text(plain),
{
    if hex == hex_text(plain) {
        lemma_hex_round_trip(plain);
    } else {
        lemma_hex_text_of_hex_bytes(hex);
    }
}

/// The data of a packet, where it is text, is read back from the two pairs that it is
/// written as.
pub proof fn law_packet_data_round_trip(attr: PacketDataAttribute)
    requires
        valid_utf8(attr@),
    ensures
        encode_payload(PKT_DATA_ATTRIBUTE_KEY@, PKT_DATA_HEX_ATTRIBUTE_KEY@, attr@) matches Ok(
            pairs,
        ) && decode_payload(PKT_DATA_ATTRIBUTE_KEY@, PKT_DATA_HEX_ATTRIBUTE_KEY@, pairs) == Ok::<
            Seq<u8>,
            ChannelErrorView,
        >(attr@),
{
    law_keys_are_distinct();
    law_payload_round_trip(PKT_DATA_ATTRIBUTE_KEY@, PKT_DATA_HEX_ATTRIBUTE_KEY@, attr@);
}

} // verus!
