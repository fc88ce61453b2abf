//! The attributes of the events of a channel handshake.
//!
//! Each attribute is written as one pair: its key, and the text of its value. A pair is
//! made of `Vec`s, which a specification cannot make; so what a conversion returns is
//! stated by its own `ensures`, over the views, and the `from_spec` and `try_from_spec`
//! of conversions to and from pairs name no value.

use vstd::prelude::*;
use vstd::std_specs::convert::{FromSpecImpl, TryFromSpecImpl};
use crate::channel::Version;
use crate::codec::{
    agrees, decode_channel_id, decode_connection_id, decode_port_id, decode_text,
    decode_version, encode_identifier, encode_version, read_channel_id, read_connection_id,
    read_port_id, read_version,
};
use crate::error::ChannelError;
use crate::event::EventAttribute;
use crate::identifiers::{port_id_accepted, port_id_rule, ChannelId, ConnectionId, PortId};
use crate::keys::{
    CHANNEL_ID_ATTRIBUTE_KEY, CONNECTION_ID_ATTRIBUTE_KEY, COUNTERPARTY_CHANNEL_ID_ATTRIBUTE_KEY,
    COUNTERPARTY_PORT_ID_ATTRIBUTE_KEY, PORT_ID_ATTRIBUTE_KEY, VERSION_ATTRIBUTE_KEY,
};

verus! {

/// The port identifier of a channel end.
#[derive(Debug, PartialEq, Eq)]
pub struct PortIdAttribute {
    pub port_id: PortId,
}

impl View for PortIdAttribute {
    type V = Seq<char>;

    open spec fn view(&self) -> Seq<char> {
        self.port_id@
    }
}

impl Clone for PortIdAttribute {
    fn clone(&self) -> (copy: PortIdAttribute)
        ensures
            copy@ == self@,
    {
        PortIdAttribute { port_id: self.port_id.clone() }
    }
}

impl FromSpecImpl<PortId> for PortIdAttribute {
    open spec fn obeys_from_spec() -> bool {
        true
    }

    open spec fn from_spec(port_id: PortId) -> PortIdAttribute {
        PortIdAttribute { port_id }
    }
}

impl From<PortId> for PortIdAttribute {
    fn from(port_id: PortId) -> (attr: PortIdAttribute) {
        PortIdAttribute { port_id }
    }
}

impl FromSpecImpl<PortIdAttribute> for EventAttribute {
    open spec fn obeys_from_spec() -> bool {
        false
    }

    open spec fn from_spec(attr: PortIdAttribute) -> EventAttribute {
        arbitrary()
    }
}

impl From<PortIdAttribute> for EventAttribute {
    fn from(attr: PortIdAttribute) -> (pair: EventAttribute)
        ensures
            pair@ == encode_identifier(PORT_ID_ATTRIBUTE_KEY@, attr@),
    {
        EventAttribute::new(PORT_ID_ATTRIBUTE_KEY, attr.port_id.as_str())
    }
}

impl TryFromSpecImpl<EventAttribute> for PortIdAttribute {
    open spec fn obeys_try_from_spec() -> bool {
        false
    }

    open spec fn try_from_spec(pair: EventAttribute) -> Result<PortIdAttribute, ChannelError> {
        arbitrary()
    }
}

impl TryFrom<EventAttribute> for PortIdAttribute {
    type Error = ChannelError;

    fn try_from(pair: EventAttribute) -> (r: Result<PortIdAttribute, ChannelError>)
        ensures
            agrees(r, decode_port_id(PORT_ID_ATTRIBUTE_KEY@, pair@)),
            decode_text(PORT_ID_ATTRIBUTE_KEY@, pair@) matches Ok(text) ==> port_id_rule(
                text,
                port_id_accepted(text),
            ),
    {
        match read_port_id(&pair, PORT_ID_ATTRIBUTE_KEY) {
            Ok(port_id) => Ok(PortIdAttribute { port_id }),
            Err(e) => Err(e),
        }
    }
}

/// The channel identifier of a channel end.
#[derive(Debug, PartialEq, Eq)]
pub struct ChannelIdAttribute {
    pub channel_id: ChannelId,
}

impl View for ChannelIdAttribute {
    type V = Seq<char>;

    open spec fn view(&self) -> Seq<char> {
        self.channel_id@
    }
}

impl Clone for ChannelIdAttribute {
    fn clone(&self) -> (copy: ChannelIdAttribute)
        ensures
            copy@ == self@,
    {
        ChannelIdAttribute { channel_id: self.channel_id.clone() }
    }
}

impl FromSpecImpl<ChannelId> for ChannelIdAttribute {
    open spec fn obeys_from_spec() -> bool {
        true
    }

    open spec fn from_spec(channel_id: ChannelId) -> ChannelIdAttribute {
        ChannelIdAttribute { channel_id }
    }
}

impl From<ChannelId> for ChannelIdAttribute {
    fn from(channel_id: ChannelId) -> (attr: ChannelIdAttribute) {
        ChannelIdAttribute { channel_id }
    }
}

impl FromSpecImpl<ChannelIdAttribute> for EventAttribute {
    open spec fn obeys_from_spec() -> bool {
        false
    }

    open spec fn from_spec(attr: ChannelIdAttribute) -> EventAttribute {
        arbitrary()
    }
}

impl From<ChannelIdAttribute> for EventAttribute {
    fn from(attr: ChannelIdAttribute) -> (pair: EventAttribute)
        ensures
            pair@ == encode_identifier(CHANNEL_ID_ATTRIBUTE_KEY@, attr@),
    {
        EventAttribute::new(CHANNEL_ID_ATTRIBUTE_KEY, attr.channel_id.as_str())
    }
}

impl TryFromSpecImpl<EventAttribute> for ChannelIdAttribute {
    open spec fn obeys_try_from_spec() -> bool {
        false
    }

    open spec fn try_from_spec(pair: EventAttribute) -> Result<ChannelIdAttribute, ChannelError> {
        arbitrary()
    }
}

impl TryFrom<EventAttribute> for ChannelIdAttribute {
    type Error = ChannelError;

    fn try_from(pair: EventAttribute) -> (r: Result<ChannelIdAttribute, ChannelError>)
        ensures
            agrees(r, decode_channel_id(CHANNEL_ID_ATTRIBUTE_KEY@, pair@)),
    {
        match read_channel_id(&pair, CHANNEL_ID_ATTRIBUTE_KEY) {
            Ok(channel_id) => Ok(ChannelIdAttribute { channel_id }),
            Err(e) => Err(e),
        }
    }
}

/// The port identifier of the channel end on the other chain.
#[derive(Debug, PartialEq, Eq)]
pub struct CounterpartyPortIdAttribute {
    pub counterparty_port_id: PortId,
}

impl View for CounterpartyPortIdAttribute {
    type V = Seq<char>;

    open spec fn view(&self) -> Seq<char> {
        self.counterparty_port_id@
    }
}

impl Clone for CounterpartyPortIdAttribute {
    fn clone(&self) -> (copy: CounterpartyPortIdAttribute)
        ensures
            copy@ == self@,
    {
        CounterpartyPortIdAttribute { counterparty_port_id: self.counterparty_port_id.clone() }
    }
}

impl FromSpecImpl<PortId> for CounterpartyPortIdAttribute {
    open spec fn obeys_from_spec() -> bool {
        true
    }

    open spec fn from_spec(counterparty_port_id: PortId) -> CounterpartyPortIdAttribute {
        CounterpartyPortIdAttribute { counterparty_port_id }
    }
}

impl From<PortId> for CounterpartyPortIdAttribute {
    fn from(counterparty_port_id: PortId) -> (attr: CounterpartyPortIdAttribute) {
        CounterpartyPortIdAttribute { counterparty_port_id }
    }
}

impl FromSpecImpl<CounterpartyPortIdAttribute> for EventAttribute {
    open spec fn obeys_from_spec() -> bool {
        false
    }

    open spec fn from_spec(attr: CounterpartyPortIdAttribute) -> EventAttribute {
        arbitrary()
    }
}

impl From<CounterpartyPortIdAttribute> for EventAttribute {
    fn from(attr: CounterpartyPortIdAttribute) -> (pair: EventAttribute)
        ensures
            pair@ == encode_identifier(COUNTERPARTY_PORT_ID_ATTRIBUTE_KEY@, attr@),
    {
        EventAttribute::new(COUNTERPARTY_PORT_ID_ATTRIBUTE_KEY, attr.counterparty_port_id.as_str())
    }
}

impl TryFromSpecImpl<EventAttribute> for CounterpartyPortIdAttribute {
    open spec fn obeys_try_from_spec() -> bool {
        false
    }

    open spec fn try_from_spec(pair: EventAttribute) -> Result<
        CounterpartyPortIdAttribute,
        ChannelError,
    > {
        arbitrary()
    }
}

impl TryFrom<EventAttribute> for CounterpartyPortIdAttribute {
    type Error = ChannelError;

    fn try_from(pair: EventAttribute) -> (r: Result<CounterpartyPortIdAttribute, ChannelError>)
        ensures
            agrees(r, decode_port_id(COUNTERPARTY_PORT_ID_ATTRIBUTE_KEY@, pair@)),
            decode_text(COUNTERPARTY_PORT_ID_ATTRIBUTE_KEY@, pair@) matches Ok(text)
                ==> port_id_rule(text, port_id_accepted(text)),
    {
        match read_port_id(&pair, COUNTERPARTY_PORT_ID_ATTRIBUTE_KEY) {
            Ok(counterparty_port_id) => Ok(CounterpartyPortIdAttribute { counterparty_port_id }),
            Err(e) => Err(e),
        }
    }
}

/// The channel identifier of the channel end on the other chain.
#[derive(Debug, PartialEq, Eq)]
pub struct CounterpartyChannelIdAttribute {
    pub counterparty_channel_id: ChannelId,
}

impl View for CounterpartyChannelIdAttribute {
    type V = Seq<char>;

    open spec fn view(&self) -> Seq<char> {
        self.counterparty_channel_id@
    }
}

impl Clone for CounterpartyChannelIdAttribute {
    fn clone(&self) -> (copy: CounterpartyChannelIdAttribute)
        ensures
            copy@ == self@,
    {
        CounterpartyChannelIdAttribute {
            counterparty_channel_id: self.counterparty_channel_id.clone(),
        }
    }
}

impl FromSpecImpl<ChannelId> for CounterpartyChannelIdAttribute {
    open spec fn obeys_from_spec() -> bool {
        true
    }

    open spec fn from_spec(counterparty_channel_id: ChannelId) -> CounterpartyChannelIdAttribute {
        CounterpartyChannelIdAttribute { counterparty_channel_id }
    }
}

impl From<ChannelId> for CounterpartyChannelIdAttribute {
    fn from(counterparty_channel_id: ChannelId) -> (attr: CounterpartyChannelIdAttribute) {
        CounterpartyChannelIdAttribute { counterparty_channel_id }
    }
}

impl FromSpecImpl<CounterpartyChannelIdAttribute> for EventAttribute {
    open spec fn obeys_from_spec() -> bool {
        false
    }

    open spec fn from_spec(attr: CounterpartyChannelIdAttribute) -> EventAttribute {
        arbitrary()
    }
}

impl From<CounterpartyChannelIdAttribute> for EventAttribute {
    fn from(attr: CounterpartyChannelIdAttribute) -> (pair: EventAttribute)
        ensures
            pair@ == encode_identifier(COUNTERPARTY_CHANNEL_ID_ATTRIBUTE_KEY@, attr@),
    {
        EventAttribute::new(
            COUNTERPARTY_CHANNEL_ID_ATTRIBUTE_KEY,
            attr.counterparty_channel_id.as_str(),
        )
    }
}

impl TryFromSpecImpl<EventAttribute> for CounterpartyChannelIdAttribute {
    open spec fn obeys_try_from_spec() -> bool {
        false
    }

    open spec fn try_from_spec(pair: EventAttribute) -> Result<
        CounterpartyChannelIdAttribute,
        ChannelError,
    > {
        arbitrary()
    }
}

impl TryFrom<EventAttribute> for CounterpartyChannelIdAttribute {
    type Error = ChannelError;

    fn try_from(pair: EventAttribute) -> (r: Result<CounterpartyChannelIdAttribute, ChannelError>)
        ensures
            agrees(r, decode_channel_id(COUNTERPARTY_CHANNEL_ID_ATTRIBUTE_KEY@, pair@)),
    {
        match read_channel_id(&pair, COUNTERPARTY_CHANNEL_ID_ATTRIBUTE_KEY) {
            Ok(counterparty_channel_id) => Ok(
                CounterpartyChannelIdAttribute { counterparty_channel_id },
            ),
            Err(e) => Err(e),
        }
    }
}

impl AsRef<ChannelId> for CounterpartyChannelIdAttribute {
    /// The channel identifier that the attribute holds.
    fn as_ref(&self) -> (id: &ChannelId)
        ensures
            id@ == self@,
    {
        &self.counterparty_channel_id
    }
}

/// The connection that a channel runs over.
#[derive(Debug, PartialEq, Eq)]
pub struct ConnectionIdAttribute {
    pub connection_id: ConnectionId,
}

impl View for ConnectionIdAttribute {
    type V = Seq<char>;

    open spec fn view(&self) -> Seq<char> {
        self.connection_id@
    }
}

impl Clone for ConnectionIdAttribute {
    fn clone(&self) -> (copy: ConnectionIdAttribute)
        ensures
            copy@ == self@,
    {
        ConnectionIdAttribute { connection_id: self.connection_id.clone() }
    }
}

impl FromSpecImpl<ConnectionId> for ConnectionIdAttribute {
    open spec fn obeys_from_spec() -> bool {
        true
    }

    open spec fn from_spec(connection_id: ConnectionId) -> ConnectionIdAttribute {
        ConnectionIdAttribute { connection_id }
    }
}

impl From<ConnectionId> for ConnectionIdAttribute {
    fn from(connection_id: ConnectionId) -> (attr: ConnectionIdAttribute) {
        ConnectionIdAttribute { connection_id }
    }
}

impl FromSpecImpl<ConnectionIdAttribute> for EventAttribute {
    open spec fn obeys_from_spec() -> bool {
        false
    }

    open spec fn from_spec(attr: ConnectionIdAttribute) -> EventAttribute {
        arbitrary()
    }
}

impl From<ConnectionIdAttribute> for EventAttribute {
    fn from(attr: ConnectionIdAttribute) -> (pair: EventAttribute)
        ensures
            pair@ == encode_identifier(CONNECTION_ID_ATTRIBUTE_KEY@, attr@),
    {
        EventAttribute::new(CONNECTION_ID_ATTRIBUTE_KEY, attr.connection_id.as_str())
    }
}

impl TryFromSpecImpl<EventAttribute> for ConnectionIdAttribute {
    open spec fn obeys_try_from_spec() -> bool {
        false
    }

    open spec fn try_from_spec(pair: EventAttribute) -> Result<
        ConnectionIdAttribute,
        ChannelError,
    > {
        arbitrary()
    }
}

impl TryFrom<EventAttribute> for ConnectionIdAttribute {
    type Error = ChannelError;

    fn try_from(pair: EventAttribute) -> (r: Result<ConnectionIdAttribute, ChannelError>)
        ensures
            agrees(r, decode_connection_id(CONNECTION_ID_ATTRIBUTE_KEY@, pair@)),
    {
        match read_connection_id(&pair, CONNECTION_ID_ATTRIBUTE_KEY) {
            Ok(connection_id) => Ok(ConnectionIdAttribute { connection_id }),
            Err(e) => Err(e),
        }
    }
}

/// The version of a channel.
#[derive(Debug, PartialEq, Eq)]
pub struct VersionAttribute {
    pub version: Version,
}

impl View for VersionAttribute {
    type V = Seq<char>;

    open spec fn view(&self) -> Seq<char> {
        self.version@
    }
}

impl Clone for VersionAttribute {
    fn clone(&self) -> (copy: VersionAttribute)
        ensures
            copy@ == self@,
    {
        VersionAttribute { version: self.version.clone() }
    }
}

impl FromSpecImpl<Version> for VersionAttribute {
    open spec fn obeys_from_spec() -> bool {
        true
    }

    open spec fn from_spec(version: Version) -> VersionAttribute {
        VersionAttribute { version }
    }
}

impl From<Version> for VersionAttribute {
    fn from(version: Version) -> (attr: VersionAttribute) {
        VersionAttribute { version }
    }
}

impl FromSpecImpl<VersionAttribute> for EventAttribute {
    open spec fn obeys_from_spec() -> bool {
        false
    }

    open spec fn from_spec(attr: VersionAttribute) -> EventAttribute {
        arbitrary()
    }
}

impl From<VersionAttribute> for EventAttribute {
    fn from(attr: VersionAttribute) -> (pair: EventAttribute)
        ensures
            pair@ == encode_version(VERSION_ATTRIBUTE_KEY@, attr@),
    {
        EventAttribute::new(VERSION_ATTRIBUTE_KEY, attr.version.as_str())
    }
}

impl TryFromSpecImpl<EventAttribute> for VersionAttribute {
    open spec fn obeys_try_from_spec() -> bool {
        false
    }

    open spec fn try_from_spec(pair: EventAttribute) -> Result<VersionAttribute, ChannelError> {
        arbitrary()
    }
}

impl TryFrom<EventAttribute> for VersionAttribute {
    type Error = ChannelError;

    fn try_from(pair: EventAttribute) -> (r: Result<VersionAttribute, ChannelError>)
        ensures
            agrees(r, decode_version(VERSION_ATTRIBUTE_KEY@, pair@)),
    {
        match read_version(&pair, VERSION_ATTRIBUTE_KEY) {
            Ok(version) => Ok(VersionAttribute { version }),
            Err(e) => Err(e),
        }
    }
}

} // verus!
