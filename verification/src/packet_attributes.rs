//! The attributes of the events of a packet: where it goes, when it times out, and
//! what it carries.
//!
//! The attributes of one pair are written and read as those of a channel handshake are.
//! The data of a packet and its acknowledgement are written as two pairs each, see
//! `payload`.

use vstd::prelude::*;
use vstd::std_specs::convert::{FromSpecImpl, TryFromSpecImpl};
use crate::channel::{Acknowledgement, Order};
use crate::codec::{
    agrees, decode_channel_id, decode_connection_id, decode_order, decode_port_id,
    decode_sequence, decode_text, decode_timeout_height, decode_timestamp, encode_identifier,
    encode_order, encode_sequence, encode_timeout_height, encode_timestamp, read_channel_id,
    read_connection_id, read_order, read_port_id, read_sequence, read_timeout_height,
    read_timestamp,
};
use crate::decimal::u64_to_text;
use crate::error::{ChannelError, ChannelErrorView};
use crate::event::{EventAttribute, EventAttributeView};
use crate::height::{TimeoutHeight, TimeoutHeightView};
use crate::identifiers::{
    port_id_accepted, port_id_rule, ChannelId, ConnectionId, PortId, Sequence,
};
use crate::keys::{
    PKT_ACK_ATTRIBUTE_KEY, PKT_ACK_HEX_ATTRIBUTE_KEY, PKT_CHANNEL_ORDERING_ATTRIBUTE_KEY,
    PKT_CONNECTION_ID_ATTRIBUTE_KEY, PKT_DATA_ATTRIBUTE_KEY, PKT_DATA_HEX_ATTRIBUTE_KEY,
    PKT_DST_CHANNEL_ATTRIBUTE_KEY, PKT_DST_PORT_ATTRIBUTE_KEY, PKT_SEQ_ATTRIBUTE_KEY,
    PKT_SRC_CHANNEL_ATTRIBUTE_KEY, PKT_SRC_PORT_ATTRIBUTE_KEY, PKT_TIMEOUT_HEIGHT_ATTRIBUTE_KEY,
    PKT_TIMEOUT_TIMESTAMP_ATTRIBUTE_KEY,
};
use crate::payload::{decode_payload, encode_payload, read_payload, write_payload};
use crate::timestamp::Timestamp;

verus! {

/// The data of a packet.
#[derive(Debug, PartialEq, Eq)]
pub struct PacketDataAttribute {
    pub packet_data: Vec<u8>,
}

impl View for PacketDataAttribute {
    type V = Seq<u8>;

    open spec fn view(&self) -> Seq<u8> {
        self.packet_data@
    }
}

impl Clone for PacketDataAttribute {
    fn clone(&self) -> (copy: PacketDataAttribute)
        ensures
            copy@ == self@,
    {
        PacketDataAttribute { packet_data: self.packet_data.clone() }
    }
}

impl FromSpecImpl<Vec<u8>> for PacketDataAttribute {
    open spec fn obeys_from_spec() -> bool {
        true
    }

    open spec fn from_spec(packet_data: Vec<u8>) -> PacketDataAttribute {
        PacketDataAttribute { packet_data }
    }
}

impl From<Vec<u8>> for PacketDataAttribute {
    fn from(packet_data: Vec<u8>) -> (attr: PacketDataAttribute) {
        PacketDataAttribute { packet_data }
    }
}

impl TryFromSpecImpl<PacketDataAttribute> for Vec<EventAttribute> {
    open spec fn obeys_try_from_spec() -> bool {
        false
    }

    open spec fn try_from_spec(attr: PacketDataAttribute) -> Result<
        Vec<EventAttribute>,
        ChannelError,
    > {
        arbitrary()
    }
}

impl TryFrom<PacketDataAttribute> for Vec<EventAttribute> {
    type Error = ChannelError;

    fn try_from(attr: PacketDataAttribute) -> (r: Result<Vec<EventAttribute>, ChannelError>)
        ensures
            match r {
                Ok(pairs) => encode_payload(
                    PKT_DATA_ATTRIBUTE_KEY@,
                    PKT_DATA_HEX_ATTRIBUTE_KEY@,
                    attr@,
                ) == Ok::<Seq<EventAttributeView>, ChannelErrorView>(pairs.deep_view()),
                Err(e) => encode_payload(
                    PKT_DATA_ATTRIBUTE_KEY@,
                    PKT_DATA_HEX_ATTRIBUTE_KEY@,
                    attr@,
                ) == Err::<Seq<EventAttributeView>, ChannelErrorView>(e@),
            },
    {
        write_payload(attr.packet_data, PKT_DATA_ATTRIBUTE_KEY, PKT_DATA_HEX_ATTRIBUTE_KEY)
    }
}

impl TryFromSpecImpl<Vec<EventAttribute>> for PacketDataAttribute {
    open spec fn obeys_try_from_spec() -> bool {
        false
    }

    open spec fn try_from_spec(pairs: Vec<EventAttribute>) -> Result<
        PacketDataAttribute,
        ChannelError,
    > {
        arbitrary()
    }
}

impl TryFrom<Vec<EventAttribute>> for PacketDataAttribute {
    type Error = ChannelError;

    fn try_from(pairs: Vec<EventAttribute>) -> (r: Result<PacketDataAttribute, ChannelError>)
        ensures
            agrees(
                r,
                decode_payload(
                    PKT_DATA_ATTRIBUTE_KEY@,
                    PKT_DATA_HEX_ATTRIBUTE_KEY@,
                    pairs.deep_view(),
                ),
            ),
    {
        match read_payload(&pairs, PKT_DATA_ATTRIBUTE_KEY, PKT_DATA_HEX_ATTRIBUTE_KEY) {
            Ok(packet_data) => Ok(PacketDataAttribute { packet_data }),
            Err(e) => Err(e),
        }
    }
}

/// The height at which a packet times out.
#[derive(Debug, PartialEq, Eq)]
pub struct TimeoutHeightAttribute {
    pub timeout_height: TimeoutHeight,
}

impl View for TimeoutHeightAttribute {
    type V = TimeoutHeightView;

    open spec fn view(&self) -> TimeoutHeightView {
        self.timeout_height@
    }
}

impl Clone for TimeoutHeightAttribute {
    fn clone(&self) -> (copy: TimeoutHeightAttribute)
        ensures
            copy@ == self@,
    {
        TimeoutHeightAttribute { timeout_height: self.timeout_height }
    }
}

impl FromSpecImpl<TimeoutHeight> for TimeoutHeightAttribute {
    open spec fn obeys_from_spec() -> bool {
        true
    }

    open spec fn from_spec(timeout_height: TimeoutHeight) -> TimeoutHeightAttribute {
        TimeoutHeightAttribute { timeout_height }
    }
}

impl From<TimeoutHeight> for TimeoutHeightAttribute {
    fn from(timeout_height: TimeoutHeight) -> (attr: TimeoutHeightAttribute) {
        TimeoutHeightAttribute { timeout_height }
    }
}

impl FromSpecImpl<TimeoutHeightAttribute> for EventAttribute {
    open spec fn obeys_from_spec() -> bool {
        false
    }

    open spec fn from_spec(attr: TimeoutHeightAttribute) -> EventAttribute {
        arbitrary()
    }
}

impl From<TimeoutHeightAttribute> for EventAttribute {
    fn from(attr: TimeoutHeightAttribute) -> (pair: EventAttribute)
        ensures
            pair@ == encode_timeout_height(PKT_TIMEOUT_HEIGHT_ATTRIBUTE_KEY@, attr@),
    {
        EventAttribute::new(
            PKT_TIMEOUT_HEIGHT_ATTRIBUTE_KEY,
            attr.timeout_height.to_string().as_str(),
        )
    }
}

impl TryFromSpecImpl<EventAttribute> for TimeoutHeightAttribute {
    open spec fn obeys_try_from_spec() -> bool {
        false
    }

    open spec fn try_from_spec(pair: EventAttribute) -> Result<
        TimeoutHeightAttribute,
        ChannelError,
    > {
        arbitrary()
    }
}

impl TryFrom<EventAttribute> for TimeoutHeightAttribute {
    type Error = ChannelError;

    fn try_from(pair: EventAttribute) -> (r: Result<TimeoutHeightAttribute, ChannelError>)
        ensures
            agrees(r, decode_timeout_height(PKT_TIMEOUT_HEIGHT_ATTRIBUTE_KEY@, pair@)),
    {
        match read_timeout_height(&pair, PKT_TIMEOUT_HEIGHT_ATTRIBUTE_KEY) {
            Ok(timeout_height) => Ok(TimeoutHeightAttribute { timeout_height }),
            Err(e) => Err(e),
        }
    }
}

/// The time at which a packet times out.
#[derive(Debug, PartialEq, Eq)]
pub struct TimeoutTimestampAttribute {
    pub timeout_timestamp: Timestamp,
}

impl View for TimeoutTimestampAttribute {
    type V = u64;

    open spec fn view(&self) -> u64 {
        self.timeout_timestamp@
    }
}

impl Clone for TimeoutTimestampAttribute {
    fn clone(&self) -> (copy: TimeoutTimestampAttribute)
        ensures
            copy@ == self@,
    {
        TimeoutTimestampAttribute { timeout_timestamp: self.timeout_timestamp }
    }
}

impl FromSpecImpl<Timestamp> for TimeoutTimestampAttribute {
    open spec fn obeys_from_spec() -> bool {
        true
    }

    open spec fn from_spec(timeout_timestamp: Timestamp) -> TimeoutTimestampAttribute {
        TimeoutTimestampAttribute { timeout_timestamp }
    }
}

impl From<Timestamp> for TimeoutTimestampAttribute {
    fn from(timeout_timestamp: Timestamp) -> (attr: TimeoutTimestampAttribute) {
        TimeoutTimestampAttribute { timeout_timestamp }
    }
}

impl FromSpecImpl<TimeoutTimestampAttribute> for EventAttribute {
    open spec fn obeys_from_spec() -> bool {
        false
    }

    open spec fn from_spec(attr: TimeoutTimestampAttribute) -> EventAttribute {
        arbitrary()
    }
}

impl From<TimeoutTimestampAttribute> for EventAttribute {
    fn from(attr: TimeoutTimestampAttribute) -> (pair: EventAttribute)
        ensures
            pair@ == encode_timestamp(PKT_TIMEOUT_TIMESTAMP_ATTRIBUTE_KEY@, attr@),
    {
        EventAttribute::new(
            PKT_TIMEOUT_TIMESTAMP_ATTRIBUTE_KEY,
            u64_to_text(attr.timeout_timestamp.nanoseconds()).as_str(),
        )
    }
}

impl TryFromSpecImpl<EventAttribute> for TimeoutTimestampAttribute {
    open spec fn obeys_try_from_spec() -> bool {
        false
    }

    open spec fn try_from_spec(pair: EventAttribute) -> Result<
        TimeoutTimestampAttribute,
        ChannelError,
    > {
        arbitrary()
    }
}

impl TryFrom<EventAttribute> for TimeoutTimestampAttribute {
    type Error = ChannelError;

    fn try_from(pair: EventAttribute) -> (r: Result<TimeoutTimestampAttribute, ChannelError>)
        ensures
            agrees(r, decode_timestamp(PKT_TIMEOUT_TIMESTAMP_ATTRIBUTE_KEY@, pair@)),
    {
        match read_timestamp(&pair, PKT_TIMEOUT_TIMESTAMP_ATTRIBUTE_KEY) {
            Ok(timeout_timestamp) => Ok(TimeoutTimestampAttribute { timeout_timestamp }),
            Err(e) => Err(e),
        }
    }
}

/// The sequence number of a packet.
#[derive(Debug, PartialEq, Eq)]
pub struct SequenceAttribute {
    pub sequence: Sequence,
}

impl View for SequenceAttribute {
    type V = u64;

    open spec fn view(&self) -> u64 {
        self.sequence@
    }
}

impl Clone for SequenceAttribute {
    fn clone(&self) -> (copy: SequenceAttribute)
        ensures
            copy@ == self@,
    {
        SequenceAttribute { sequence: self.sequence }
    }
}

impl FromSpecImpl<Sequence> for SequenceAttribute {
    open spec fn obeys_from_spec() -> bool {
        true
    }

    open spec fn from_spec(sequence: Sequence) -> SequenceAttribute {
        SequenceAttribute { sequence }
    }
}

impl From<Sequence> for SequenceAttribute {
    fn from(sequence: Sequence) -> (attr: SequenceAttribute) {
        SequenceAttribute { sequence }
    }
}

impl FromSpecImpl<SequenceAttribute> for EventAttribute {
    open spec fn obeys_from_spec() -> bool {
        false
    }

    open spec fn from_spec(attr: SequenceAttribute) -> EventAttribute {
        arbitrary()
    }
}

impl From<SequenceAttribute> for EventAttribute {
    fn from(attr: SequenceAttribute) -> (pair: EventAttribute)
        ensures
            pair@ == encode_sequence(PKT_SEQ_ATTRIBUTE_KEY@, attr@),
    {
        EventAttribute::new(PKT_SEQ_ATTRIBUTE_KEY, attr.sequence.to_string().as_str())
    }
}

impl TryFromSpecImpl<EventAttribute> for SequenceAttribute {
    open spec fn obeys_try_from_spec() -> bool {
        false
    }

    open spec fn try_from_spec(pair: EventAttribute) -> Result<SequenceAttribute, ChannelError> {
        arbitrary()
    }
}

impl TryFrom<EventAttribute> for SequenceAttribute {
    type Error = ChannelError;

    fn try_from(pair: EventAttribute) -> (r: Result<SequenceAttribute, ChannelError>)
        ensures
            agrees(r, decode_sequence(PKT_SEQ_ATTRIBUTE_KEY@, pair@)),
    {
        match read_sequence(&pair, PKT_SEQ_ATTRIBUTE_KEY) {
            Ok(sequence) => Ok(SequenceAttribute { sequence }),
            Err(e) => Err(e),
        }
    }
}

/// The port that a packet is sent from.
#[derive(Debug, PartialEq, Eq)]
pub struct SrcPortIdAttribute {
    pub src_port_id: PortId,
}

impl View for SrcPortIdAttribute {
    type V = Seq<char>;

    open spec fn view(&self) -> Seq<char> {
        self.src_port_id@
    }
}

impl Clone for SrcPortIdAttribute {
    fn clone(&self) -> (copy: SrcPortIdAttribute)
        ensures
            copy@ == self@,
    {
        SrcPortIdAttribute { src_port_id: self.src_port_id.clone() }
    }
}

impl FromSpecImpl<PortId> for SrcPortIdAttribute {
    open spec fn obeys_from_spec() -> bool {
        true
    }

    open spec fn from_spec(src_port_id: PortId) -> SrcPortIdAttribute {
        SrcPortIdAttribute { src_port_id }
    }
}

impl From<PortId> for SrcPortIdAttribute {
    fn from(src_port_id: PortId) -> (attr: SrcPortIdAttribute) {
        SrcPortIdAttribute { src_port_id }
    }
}

impl FromSpecImpl<SrcPortIdAttribute> for EventAttribute {
    open spec fn obeys_from_spec() -> bool {
        false
    }

    open spec fn from_spec(attr: SrcPortIdAttribute) -> EventAttribute {
        arbitrary()
    }
}

impl From<SrcPortIdAttribute> for EventAttribute {
    fn from(attr: SrcPortIdAttribute) -> (pair: EventAttribute)
        ensures
            pair@ == encode_identifier(PKT_SRC_PORT_ATTRIBUTE_KEY@, attr@),
    {
        EventAttribute::new(PKT_SRC_PORT_ATTRIBUTE_KEY, attr.src_port_id.as_str())
    }
}

impl TryFromSpecImpl<EventAttribute> for SrcPortIdAttribute {
    open spec fn obeys_try_from_spec() -> bool {
        false
    }

    open spec fn try_from_spec(pair: EventAttribute) -> Result<SrcPortIdAttribute, ChannelError> {
        arbitrary()
    }
}

impl TryFrom<EventAttribute> for SrcPortIdAttribute {
    type Error = ChannelError;

    fn try_from(pair: EventAttribute) -> (r: Result<SrcPortIdAttribute, ChannelError>)
        ensures
            agrees(r, decode_port_id(PKT_SRC_PORT_ATTRIBUTE_KEY@, pair@)),
            decode_text(PKT_SRC_PORT_ATTRIBUTE_KEY@, pair@) matches Ok(text) ==> port_id_rule(
                text,
                port_id_accepted(text),
            ),
    {
        match read_port_id(&pair, PKT_SRC_PORT_ATTRIBUTE_KEY) {
            Ok(src_port_id) => Ok(SrcPortIdAttribute { src_port_id }),
            Err(e) => Err(e),
        }
    }
}

/// The channel that a packet is sent from.
#[derive(Debug, PartialEq, Eq)]
pub struct SrcChannelIdAttribute {
    pub src_channel_id: ChannelId,
}

impl View for SrcChannelIdAttribute {
    type V = Seq<char>;

    open spec fn view(&self) -> Seq<char> {
        self.src_channel_id@
    }
}

impl Clone for SrcChannelIdAttribute {
    fn clone(&self) -> (copy: SrcChannelIdAttribute)
        ensures
            copy@ == self@,
    {
        SrcChannelIdAttribute { src_channel_id: self.src_channel_id.clone() }
    }
}

impl FromSpecImpl<ChannelId> for SrcChannelIdAttribute {
    open spec fn obeys_from_spec() -> bool {
        true
    }

    open spec fn from_spec(src_channel_id: ChannelId) -> SrcChannelIdAttribute {
        SrcChannelIdAttribute { src_channel_id }
    }
}

impl From<ChannelId> for SrcChannelIdAttribute {
    fn from(src_channel_id: ChannelId) -> (attr: SrcChannelIdAttribute) {
        SrcChannelIdAttribute { src_channel_id }
    }
}

impl FromSpecImpl<SrcChannelIdAttribute> for EventAttribute {
    open spec fn obeys_from_spec() -> bool {
        false
    }

    open spec fn from_spec(attr: SrcChannelIdAttribute) -> EventAttribute {
        arbitrary()
    }
}

impl From<SrcChannelIdAttribute> for EventAttribute {
    fn from(attr: SrcChannelIdAttribute) -> (pair: EventAttribute)
        ensures
            pair@ == encode_identifier(PKT_SRC_CHANNEL_ATTRIBUTE_KEY@, attr@),
    {
        EventAttribute::new(PKT_SRC_CHANNEL_ATTRIBUTE_KEY, attr.src_channel_id.as_str())
    }
}

impl TryFromSpecImpl<EventAttribute> for SrcChannelIdAttribute {
    open spec fn obeys_try_from_spec() -> bool {
        false
    }

    open spec fn try_from_spec(pair: EventAttribute) -> Result<
        SrcChannelIdAttribute,
        ChannelError,
    > {
        arbitrary()
    }
}

impl TryFrom<EventAttribute> for SrcChannelIdAttribute {
    type Error = ChannelError;

    fn try_from(pair: EventAttribute) -> (r: Result<SrcChannelIdAttribute, ChannelError>)
        ensures
            agrees(r, decode_channel_id(PKT_SRC_CHANNEL_ATTRIBUTE_KEY@, pair@)),
    {
        match read_channel_id(&pair, PKT_SRC_CHANNEL_ATTRIBUTE_KEY) {
            Ok(src_channel_id) => Ok(SrcChannelIdAttribute { src_channel_id }),
            Err(e) => Err(e),
        }
    }
}

/// The port that a packet is sent to.
#[derive(Debug, PartialEq, Eq)]
pub struct DstPortIdAttribute {
    pub dst_port_id: PortId,
}

impl View for DstPortIdAttribute {
    type V = Seq<char>;

    open spec fn view(&self) -> Seq<char> {
        self.dst_port_id@
    }
}

impl Clone for DstPortIdAttribute {
    fn clone(&self) -> (copy: DstPortIdAttribute)
        ensures
            copy@ == self@,
    {
        DstPortIdAttribute { dst_port_id: self.dst_port_id.clone() }
    }
}

impl FromSpecImpl<PortId> for DstPortIdAttribute {
    open spec fn obeys_from_spec() -> bool {
        true
    }

    open spec fn from_spec(dst_port_id: PortId) -> DstPortIdAttribute {
        DstPortIdAttribute { dst_port_id }
    }
}

impl From<PortId> for DstPortIdAttribute {
    fn from(dst_port_id: PortId) -> (attr: DstPortIdAttribute) {
        DstPortIdAttribute { dst_port_id }
    }
}

impl FromSpecImpl<DstPortIdAttribute> for EventAttribute {
    open spec fn obeys_from_spec() -> bool {
        false
    }

    open spec fn from_spec(attr: DstPortIdAttribute) -> EventAttribute {
        arbitrary()
    }
}

impl From<DstPortIdAttribute> for EventAttribute {
    fn from(attr: DstPortIdAttribute) -> (pair: EventAttribute)
        ensures
            pair@ == encode_identifier(PKT_DST_PORT_ATTRIBUTE_KEY@, attr@),
    {
        EventAttribute::new(PKT_DST_PORT_ATTRIBUTE_KEY, attr.dst_port_id.as_str())
    }
}

impl TryFromSpecImpl<EventAttribute> for DstPortIdAttribute {
    open spec fn obeys_try_from_spec() -> bool {
        false
    }

    open spec fn try_from_spec(pair: EventAttribute) -> Result<DstPortIdAttribute, ChannelError> {
        arbitrary()
    }
}

impl TryFrom<EventAttribute> for DstPortIdAttribute {
    type Error = ChannelError;

    fn try_from(pair: EventAttribute) -> (r: Result<DstPortIdAttribute, ChannelError>)
        ensures
            agrees(r, decode_port_id(PKT_DST_PORT_ATTRIBUTE_KEY@, pair@)),
            decode_text(PKT_DST_PORT_ATTRIBUTE_KEY@, pair@) matches Ok(text) ==> port_id_rule(
                text,
                port_id_accepted(text),
            ),
    {
        match read_port_id(&pair, PKT_DST_PORT_ATTRIBUTE_KEY) {
            Ok(dst_port_id) => Ok(DstPortIdAttribute { dst_port_id }),
            Err(e) => Err(e),
        }
    }
}

/// The channel that a packet is sent to.
#[derive(Debug, PartialEq, Eq)]
pub struct DstChannelIdAttribute {
    pub dst_channel_id: ChannelId,
}

impl View for DstChannelIdAttribute {
    type V = Seq<char>;

    open spec fn view(&self) -> Seq<char> {
        self.dst_channel_id@
    }
}

impl Clone for DstChannelIdAttribute {
    fn clone(&self) -> (copy: DstChannelIdAttribute)
        ensures
            copy@ == self@,
    {
        DstChannelIdAttribute { dst_channel_id: self.dst_channel_id.clone() }
    }
}

impl FromSpecImpl<ChannelId> for DstChannelIdAttribute {
    open spec fn obeys_from_spec() -> bool {
        true
    }

    open spec fn from_spec(dst_channel_id: ChannelId) -> DstChannelIdAttribute {
        DstChannelIdAttribute { dst_channel_id }
    }
}

impl From<ChannelId> for DstChannelIdAttribute {
    fn from(dst_channel_id: ChannelId) -> (attr: DstChannelIdAttribute) {
        DstChannelIdAttribute { dst_channel_id }
    }
}

impl FromSpecImpl<DstChannelIdAttribute> for EventAttribute {
    open spec fn obeys_from_spec() -> bool {
        false
    }

    open spec fn from_spec(attr: DstChannelIdAttribute) -> EventAttribute {
        arbitrary()
    }
}

impl From<DstChannelIdAttribute> for EventAttribute {
    fn from(attr: DstChannelIdAttribute) -> (pair: EventAttribute)
        ensures
            pair@ == encode_identifier(PKT_DST_CHANNEL_ATTRIBUTE_KEY@, attr@),
    {
        EventAttribute::new(PKT_DST_CHANNEL_ATTRIBUTE_KEY, attr.dst_channel_id.as_str())
    }
}

impl TryFromSpecImpl<EventAttribute> for DstChannelIdAttribute {
    open spec fn obeys_try_from_spec() -> bool {
        false
    }

    open spec fn try_from_spec(pair: EventAttribute) -> Result<
        DstChannelIdAttribute,
        ChannelError,
    > {
        arbitrary()
    }
}

impl TryFrom<EventAttribute> for DstChannelIdAttribute {
    type Error = ChannelError;

    fn try_from(pair: EventAttribute) -> (r: Result<DstChannelIdAttribute, ChannelError>)
        ensures
            agrees(r, decode_channel_id(PKT_DST_CHANNEL_ATTRIBUTE_KEY@, pair@)),
    {
        match read_channel_id(&pair, PKT_DST_CHANNEL_ATTRIBUTE_KEY) {
            Ok(dst_channel_id) => Ok(DstChannelIdAttribute { dst_channel_id }),
            Err(e) => Err(e),
        }
    }
}

/// The ordering of the channel that a packet travels on.
#[derive(Debug, PartialEq, Eq)]
pub struct ChannelOrderingAttribute {
    pub order: Order,
}

impl View for ChannelOrderingAttribute {
    type V = Order;

    open spec fn view(&self) -> Order {
        self.order@
    }
}

impl Clone for ChannelOrderingAttribute {
    fn clone(&self) -> (copy: ChannelOrderingAttribute)
        ensures
            copy@ == self@,
    {
        ChannelOrderingAttribute { order: self.order }
    }
}

impl FromSpecImpl<Order> for ChannelOrderingAttribute {
    open spec fn obeys_from_spec() -> bool {
        true
    }

    open spec fn from_spec(order: Order) -> ChannelOrderingAttribute {
        ChannelOrderingAttribute { order }
    }
}

impl From<Order> for ChannelOrderingAttribute {
    fn from(order: Order) -> (attr: ChannelOrderingAttribute) {
        ChannelOrderingAttribute { order }
    }
}

impl FromSpecImpl<ChannelOrderingAttribute> for EventAttribute {
    open spec fn obeys_from_spec() -> bool {
        false
    }

    open spec fn from_spec(attr: ChannelOrderingAttribute) -> EventAttribute {
        arbitrary()
    }
}

impl From<ChannelOrderingAttribute> for EventAttribute {
    fn from(attr: ChannelOrderingAttribute) -> (pair: EventAttribute)
        ensures
            pair@ == encode_order(PKT_CHANNEL_ORDERING_ATTRIBUTE_KEY@, attr@),
    {
        EventAttribute::new(PKT_CHANNEL_ORDERING_ATTRIBUTE_KEY, attr.order.as_str())
    }
}

impl TryFromSpecImpl<EventAttribute> for ChannelOrderingAttribute {
    open spec fn obeys_try_from_spec() -> bool {
        false
    }

    open spec fn try_from_spec(pair: EventAttribute) -> Result<
        ChannelOrderingAttribute,
        ChannelError,
    > {
        arbitrary()
    }
}

impl TryFrom<EventAttribute> for ChannelOrderingAttribute {
    type Error = ChannelError;

    fn try_from(pair: EventAttribute) -> (r: Result<ChannelOrderingAttribute, ChannelError>)
        ensures
            agrees(r, decode_order(PKT_CHANNEL_ORDERING_ATTRIBUTE_KEY@, pair@)),
    {
        match read_order(&pair, PKT_CHANNEL_ORDERING_ATTRIBUTE_KEY) {
            Ok(order) => Ok(ChannelOrderingAttribute { order }),
            Err(e) => Err(e),
        }
    }
}

/// The connection that a packet travels over.
#[derive(Debug, PartialEq, Eq)]
pub struct PacketConnectionIdAttribute {
    pub connection_id: ConnectionId,
}

impl View for PacketConnectionIdAttribute {
    type V = Seq<char>;

    open spec fn view(&self) -> Seq<char> {
        self.connection_id@
    }
}

impl Clone for PacketConnectionIdAttribute {
    fn clone(&self) -> (copy: PacketConnectionIdAttribute)
        ensures
            copy@ == self@,
    {
        PacketConnectionIdAttribute { connection_id: self.connection_id.clone() }
    }
}

impl FromSpecImpl<ConnectionId> for PacketConnectionIdAttribute {
    open spec fn obeys_from_spec() -> bool {
        true
    }

    open spec fn from_spec(connection_id: ConnectionId) -> PacketConnectionIdAttribute {
        PacketConnectionIdAttribute { connection_id }
    }
}

impl From<ConnectionId> for PacketConnectionIdAttribute {
    fn from(connection_id: ConnectionId) -> (attr: PacketConnectionIdAttribute) {
        PacketConnectionIdAttribute { connection_id }
    }
}

impl FromSpecImpl<PacketConnectionIdAttribute> for EventAttribute {
    open spec fn obeys_from_spec() -> bool {
        false
    }

    open spec fn from_spec(attr: PacketConnectionIdAttribute) -> EventAttribute {
        arbitrary()
    }
}

impl From<PacketConnectionIdAttribute> for EventAttribute {
    fn from(attr: PacketConnectionIdAttribute) -> (pair: EventAttribute)
        ensures
            pair@ == encode_identifier(PKT_CONNECTION_ID_ATTRIBUTE_KEY@, attr@),
    {
        EventAttribute::new(PKT_CONNECTION_ID_ATTRIBUTE_KEY, attr.connection_id.as_str())
    }
}

impl TryFromSpecImpl<EventAttribute> for PacketConnectionIdAttribute {
    open spec fn obeys_try_from_spec() -> bool {
        false
    }

    open spec fn try_from_spec(pair: EventAttribute) -> Result<
        PacketConnectionIdAttribute,
        ChannelError,
    > {
        arbitrary()
    }
}

impl TryFrom<EventAttribute> for PacketConnectionIdAttribute {
    type Error = ChannelError;

    fn try_from(pair: EventAttribute) -> (r: Result<PacketConnectionIdAttribute, ChannelError>)
        ensures
            agrees(r, decode_connection_id(PKT_CONNECTION_ID_ATTRIBUTE_KEY@, pair@)),
    {
        match read_connection_id(&pair, PKT_CONNECTION_ID_ATTRIBUTE_KEY) {
            Ok(connection_id) => Ok(PacketConnectionIdAttribute { connection_id }),
            Err(e) => Err(e),
        }
    }
}

/// The acknowledgement of a packet. It is written to the log and never read from it.
#[derive(Debug, PartialEq, Eq)]
pub struct AcknowledgementAttribute {
    pub acknowledgement: Acknowledgement,
}

impl View for AcknowledgementAttribute {
    type V = Seq<u8>;

    open spec fn view(&self) -> Seq<u8> {
        self.acknowledgement@
    }
}

impl Clone for AcknowledgementAttribute {
    fn clone(&self) -> (copy: AcknowledgementAttribute)
        ensures
            copy@ == self@,
    {
        AcknowledgementAttribute { acknowledgement: self.acknowledgement.clone() }
    }
}

impl FromSpecImpl<Acknowledgement> for AcknowledgementAttribute {
    open spec fn obeys_from_spec() -> bool {
        true
    }

    open spec fn from_spec(acknowledgement: Acknowledgement) -> AcknowledgementAttribute {
        AcknowledgementAttribute { acknowledgement }
    }
}

impl From<Acknowledgement> for AcknowledgementAttribute {
    fn from(acknowledgement: Acknowledgement) -> (attr: AcknowledgementAttribute) {
        AcknowledgementAttribute { acknowledgement }
    }
}

impl TryFromSpecImpl<AcknowledgementAttribute> for Vec<EventAttribute> {
    open spec fn obeys_try_from_spec() -> bool {
        false
    }

    open spec fn try_from_spec(attr: AcknowledgementAttribute) -> Result<
        Vec<EventAttribute>,
        ChannelError,
    > {
        arbitrary()
    }
}

impl TryFrom<AcknowledgementAttribute> for Vec<EventAttribute> {
    type Error = ChannelError;

    fn try_from(attr: AcknowledgementAttribute) -> (r: Result<Vec<EventAttribute>, ChannelError>)
        ensures
            match r {
                Ok(pairs) => encode_payload(
                    PKT_ACK_ATTRIBUTE_KEY@,
                    PKT_ACK_HEX_ATTRIBUTE_KEY@,
                    attr@,
                ) == Ok::<Seq<EventAttributeView>, ChannelErrorView>(pairs.deep_view()),
                Err(e) => encode_payload(
                    PKT_ACK_ATTRIBUTE_KEY@,
                    PKT_ACK_HEX_ATTRIBUTE_KEY@,
                    attr@,
                ) == Err::<Seq<EventAttributeView>, ChannelErrorView>(e@),
            },
    {
        write_payload(attr.acknowledgement.bytes, PKT_ACK_ATTRIBUTE_KEY, PKT_ACK_HEX_ATTRIBUTE_KEY)
    }
}

} // verus!
