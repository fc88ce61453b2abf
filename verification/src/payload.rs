//! The conversion of a payload of bytes, which is written twice: once as it is, for
//! readers that take it for text, and once in hexadecimal.

use vstd::prelude::*;
use vstd::slice::slice_to_vec;
use vstd::utf8::valid_utf8;
use crate::codec::agrees;
use crate::error::{invalid_value, ChannelError, ChannelErrorView};
use crate::event::{EventAttribute, EventAttributeView};
use crate::hex::{hex_decode, hex_decoded, hex_encode, hex_text};
use crate::text::{as_text, bytes_of, same_bytes};

verus! {

impl DeepView for EventAttribute {
    type V = EventAttributeView;

    open spec fn deep_view(&self) -> EventAttributeView {
        self@
    }
}

/// The two pairs that the payload `bytes` is written as, the plain one under `key` and
/// the hexadecimal one under `hex_key`. Bytes that are not text are not written.
pub open spec fn encode_payload(key: Seq<char>, hex_key: Seq<char>, bytes: Seq<u8>) -> Result<
    Seq<EventAttributeView>,
    ChannelErrorView,
> {
    if valid_utf8(bytes) {
        Ok(
            seq![
                EventAttributeView { key: bytes_of(key), value: bytes },
                EventAttributeView { key: bytes_of(hex_key), value: hex_text(bytes) },
            ],
        )
    } else {
        Err(ChannelErrorView::NonUtf8PacketData)
    }
}

/// The value of the first of `pairs` that stands under `key`.
pub open spec fn first_value_of(pairs: Seq<EventAttributeView>, key: Seq<u8>) -> Option<Seq<u8>>
    decreases pairs.len(),
{
    if pairs.len() == 0 {
        None
    } else if pairs[0].key == key {
        Some(pairs[0].value)
    } else {
        first_value_of(pairs.drop_first(), key)
    }
}

/// The payload that the two forms stand for. Where both are there, they have to hold
/// the same bytes; where one is there, it decides; where none is, there is no payload.
pub open spec fn reconciled(plain: Option<Seq<u8>>, hex: Option<Seq<u8>>) -> Result<
    Seq<u8>,
    ChannelErrorView,
> {
    match (plain, hex) {
        (Some(data), Some(text)) => match hex_decoded(text) {
            Some(decoded) => if decoded == data {
                Ok(data)
            } else {
                Err(ChannelErrorView::MismatchedPacketData)
            },
            None => Err(invalid_value(Seq::empty())),
        },
        (Some(data), None) => Ok(data),
        (None, Some(text)) => match hex_decoded(text) {
            Some(decoded) => Ok(decoded),
            None => Err(invalid_value(Seq::empty())),
        },
        (None, None) => Err(invalid_value(Seq::empty())),
    }
}

/// The payload that `pairs` are read as. There have to be two of them; each form is
/// looked up by its key alone, so a hexadecimal form that is there is always read.
pub open spec fn decode_payload(
    key: Seq<char>,
    hex_key: Seq<char>,
    pairs: Seq<EventAttributeView>,
) -> Result<Seq<u8>, ChannelErrorView> {
    if pairs.len() != 2 {
        Err(ChannelErrorView::InvalidAttributeCount { expected: 2, actual: pairs.len() })
    } else {
        reconciled(first_value_of(pairs, bytes_of(key)), first_value_of(pairs, bytes_of(hex_key)))
    }
}

/// Writes the payload `bytes` as its two pairs.
pub fn write_payload(bytes: Vec<u8>, key: &str, hex_key: &str) -> (r: Result<
    Vec<EventAttribute>,
    ChannelError,
>)
    ensures
        match r {
            Ok(pairs) => encode_payload(key@, hex_key@, bytes@) == Ok::<
                Seq<EventAttributeView>,
                ChannelErrorView,
            >(pairs.deep_view()),
            Err(e) => encode_payload(key@, hex_key@, bytes@) == Err::<
                Seq<EventAttributeView>,
                ChannelErrorView,
            >(e@),
        },
{
    if as_text(bytes.as_slice()).is_none() {
        return Err(ChannelError::NonUtf8PacketData);
    }
    let hex = hex_encode(bytes.as_slice());
    let mut pairs: Vec<EventAttribute> = Vec::new();
    pairs.push(EventAttribute::with_value_bytes(key, bytes));
    pairs.push(EventAttribute::with_value_bytes(hex_key, hex));
    assert(pairs.deep_view() =~= encode_payload(key@, hex_key@, bytes@)->Ok_0);
    Ok(pairs)
}

/// Finds the value of the first of `pairs` that stands under `key`.
pub fn first_value<'a>(pairs: &'a Vec<EventAttribute>, key: &str) -> (r: Option<&'a [u8]>)
    ensures
        match r {
            Some(value) => first_value_of(pairs.deep_view(), bytes_of(key@)) == Some(value@),
            None => first_value_of(pairs.deep_view(), bytes_of(key@)) is None,
        },
{
    let ghost all = pairs.deep_view();
    let mut i: usize = 0;
    assert(all.skip(0) =~= all);
    while i < pairs.len()
        invariant
            i <= pairs.len(),
            all == pairs.deep_view(),
            first_value_of(all, bytes_of(key@)) == first_value_of(
                all.skip(i as int),
                bytes_of(key@),
            ),
        decreases pairs.len() - i,
    {
        assert(all.skip(i as int).drop_first() =~= all.skip(i + 1));
        if same_bytes(pairs[i].key_bytes(), key.as_bytes()) {
            return Some(pairs[i].value_bytes());
        }
        i += 1;
    }
    None
}

/// Decides the payload from its plain form and its hexadecimal form, each of which may
/// be absent.
pub fn reconcile(plain: Option<Vec<u8>>, hex: Option<&[u8]>) -> (r: Result<Vec<u8>, ChannelError>)
    ensures
        agrees(
            r,
            reconciled(
                match plain {
                    Some(data) => Some(data@),
                    None => None,
                },
                match hex {
                    Some(text) => Some(text@),
                    None => None,
                },
            ),
        ),
{
    match (plain, hex) {
        (Some(data), Some(text)) => match hex_decode(text) {
            Ok(decoded) => if same_bytes(data.as_slice(), decoded.as_slice()) {
                Ok(data)
            } else {
                Err(ChannelError::MismatchedPacketData)
            },
            Err(_) => Err(ChannelError::InvalidAttributeValue { attribute_value: String::new() }),
        },
        (Some(data), None) => Ok(data),
        (None, Some(text)) => match hex_decode(text) {
            Ok(decoded) => Ok(decoded),
            Err(_) => Err(ChannelError::InvalidAttributeValue { attribute_value: String::new() }),
        },
        (None, None) => Err(
            ChannelError::InvalidAttributeValue { attribute_value: String::new() },
        ),
    }
}

/// Reads `pairs` as a payload whose plain form stands under `key` and whose hexadecimal
/// form stands under `hex_key`.
pub fn read_payload(pairs: &Vec<EventAttribute>, key: &str, hex_key: &str) -> (r: Result<
    Vec<u8>,
    ChannelError,
>)
    ensures
        agrees(r, decode_payload(key@, hex_key@, pairs.deep_view())),
{
    if pairs.len() != 2 {
        return Err(ChannelError::InvalidAttributeCount { expected: 2, actual: pairs.len() });
    }
    let plain = match first_value(pairs, key) {
        Some(value) => Some(slice_to_vec(value)),
        None => None,
    };
    reconcile(plain, first_value(pairs, hex_key))
}

} // verus!
