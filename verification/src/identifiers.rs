//! The identifiers of ports, channels and connections, and the sequence number of a
//! packet. What is a well-formed identifier is decided by `ibc_core_host_types`; the
//! types here hold the text or the number that was accepted.

use core::str::FromStr;
use vstd::prelude::*;
use vstd::std_specs::convert::FromSpecImpl;
use vstd::utf8::is_ascii_chars;
use crate::decimal::{decimal_text, parse_u64};
use crate::text::bytes_of;

verus! {

/// The error of the parsers of `ibc_core_host_types`. It is handed on as it is.
#[verifier::external_type_specification]
#[verifier::external_body]
pub struct ExIdentifierError(ibc_core_host_types::error::IdentifierError);

/// Whether `text` is accepted as a port identifier. The rule allows every character
/// that Unicode counts as alphanumeric; this crate does not spell that class out. What
/// the rule says of the length of any text, and of a text of ASCII characters, is
/// `port_id_rule`.
pub uninterp spec fn port_id_accepted(text: Seq<char>) -> bool;

/// Whether `c` is an ASCII letter, an ASCII digit, or one of `._+-#[]<>`.
pub open spec fn ascii_identifier_char(c: char) -> bool {
    ||| ('a' <= c && c <= 'z')
    ||| ('A' <= c && c <= 'Z')
    ||| ('0' <= c && c <= '9')
    ||| c == '.'
    ||| c == '_'
    ||| c == '+'
    ||| c == '-'
    ||| c == '#'
    ||| c == '['
    ||| c == ']'
    ||| c == '<'
    ||| c == '>'
}

/// Whether `text` is 2 to 128 characters long and holds nothing but ASCII letters, ASCII
/// digits and the characters `._+-#[]<>`.
pub open spec fn ascii_port_id(text: Seq<char>) -> bool {
    &&& 2 <= text.len() <= 128
    &&& forall|i: int| 0 <= i < text.len() ==> ascii_identifier_char(#[trigger] text[i])
}

/// What is known of whether `text` is accepted as a port identifier, `accepted` saying
/// whether it is: an accepted text is 2 to 128 bytes long, and a text of ASCII
/// characters is accepted exactly if it is an `ascii_port_id`.
pub open spec fn port_id_rule(text: Seq<char>, accepted: bool) -> bool {
    &&& accepted ==> 2 <= bytes_of(text).len() <= 128
    &&& is_ascii_chars(text) ==> (accepted <==> ascii_port_id(text))
}

/// Whether `text` is `name`, a hyphen, and a decimal `u64` that is written without a
/// leading zero (a plus sign before the digits passes).
pub open spec fn named_index(name: Seq<char>, text: Seq<char>) -> bool {
    let head = name.push('-');
    let number = text.subrange(head.len() as int, text.len() as int);
    &&& head.len() < text.len()
    &&& text.subrange(0, head.len() as int) == head
    &&& parse_u64(number) is Some
    &&& !(number[0] == '0' && number.len() > 1)
}

/// Whether `text` is accepted as a channel identifier.
pub open spec fn channel_id_accepted(text: Seq<char>) -> bool {
    named_index("channel"@, text) && 8 <= text.len() <= 64
}

/// Whether `text` is accepted as a connection identifier.
pub open spec fn connection_id_accepted(text: Seq<char>) -> bool {
    named_index("connection"@, text) && 10 <= text.len() <= 64
}

/// The port identifier that `text` spells: `text` itself, where it is accepted.
pub open spec fn parse_port_id(text: Seq<char>) -> Option<Seq<char>> {
    if port_id_accepted(text) {
        Some(text)
    } else {
        None
    }
}

/// The channel identifier that `text` spells: `text` itself, where it is accepted.
pub open spec fn parse_channel_id(text: Seq<char>) -> Option<Seq<char>> {
    if channel_id_accepted(text) {
        Some(text)
    } else {
        None
    }
}

/// The connection identifier that `text` spells: `text` itself, where it is accepted.
pub open spec fn parse_connection_id(text: Seq<char>) -> Option<Seq<char>> {
    if connection_id_accepted(text) {
        Some(text)
    } else {
        None
    }
}

/// `PortId::from_str` of `ibc_core_host_types`, followed by the conversion of the
/// identifier back into its `String`. Whether a text is accepted depends on the text
/// alone, and an accepted identifier holds the text it was made from. The source asks
/// for 2 to 128 bytes, and for characters that are alphanumeric or among `._+-#[]<>`;
/// of the ASCII characters, the letters and the digits are the alphanumeric ones.
#[verifier::external_body]
fn port_id_text(s: &str) -> (r: Result<String, ibc_core_host_types::error::IdentifierError>)
    ensures
        r is Ok <==> port_id_accepted(s@),
        r matches Ok(text) ==> text@ == s@,
        port_id_rule(s@, r is Ok),
{
    ibc_core_host_types::identifiers::PortId::from_str(s).map(String::from)
}

/// `ChannelId::from_str` of `ibc_core_host_types`, followed by the conversion of the
/// identifier back into its `String`. The source checks the characters, a length of 8
/// to 64 bytes, the prefix `channel-` and the number behind it; a text of that shape
/// has only ASCII characters that the first check lets through.
#[verifier::external_body]
fn channel_id_text(s: &str) -> (r: Result<String, ibc_core_host_types::error::IdentifierError>)
    ensures
        r is Ok <==> channel_id_accepted(s@),
        r matches Ok(text) ==> text@ == s@,
{
    ibc_core_host_types::identifiers::ChannelId::from_str(s).map(String::from)
}

/// `ConnectionId::from_str` of `ibc_core_host_types`, followed by the conversion of the
/// identifier back into its `String`. The source checks the characters, a length of 10
/// to 64 bytes, the prefix `connection-` and the number behind it.
#[verifier::external_body]
fn connection_id_text(s: &str) -> (r: Result<
    String,
    ibc_core_host_types::error::IdentifierError,
>)
    ensures
        r is Ok <==> connection_id_accepted(s@),
        r matches Ok(text) ==> text@ == s@,
{
    ibc_core_host_types::identifiers::ConnectionId::from_str(s).map(String::from)
}

/// `Sequence::from_str` of `ibc_core_host_types`, followed by the conversion of the
/// sequence into its `u64`. The source parses the text as a `u64` with std.
#[verifier::external_body]
fn sequence_number(s: &str) -> (r: Result<u64, ibc_core_host_types::error::IdentifierError>)
    ensures
        r is Ok <==> parse_u64(s@) is Some,
        r matches Ok(n) ==> parse_u64(s@) == Some(n),
{
    ibc_core_host_types::identifiers::Sequence::from_str(s).map(u64::from)
}

/// `Sequence::to_string` of `ibc_core_host_types`, on the sequence made of `n`: the
/// source writes the number as std writes a `u64`.
#[verifier::external_body]
fn sequence_text(n: u64) -> (text: String)
    ensures
        text@ == decimal_text(n as nat),
{
    ibc_core_host_types::identifiers::Sequence::from(n).to_string()
}

/// The identifier of a port.
#[derive(Debug, PartialEq, Eq)]
pub struct PortId {
    text: String,
}

impl View for PortId {
    type V = Seq<char>;

    closed spec fn view(&self) -> Seq<char> {
        self.text@
    }
}

impl PortId {
    /// Every port identifier holds a text that was accepted.
    #[verifier::type_invariant]
    pub open spec fn wf(self) -> bool {
        port_id_accepted(self@)
    }

    /// The port identifier that `s` spells, if `s` is accepted as one.
    pub fn from_str(s: &str) -> (r: Result<PortId, ibc_core_host_types::error::IdentifierError>)
        ensures
            r is Ok <==> port_id_accepted(s@),
            r matches Ok(id) ==> id@ == s@,
            port_id_rule(s@, port_id_accepted(s@)),
    {
        match port_id_text(s) {
            Ok(text) => Ok(PortId { text }),
            Err(e) => Err(e),
        }
    }

    /// The text of the identifier.
    pub fn as_str(&self) -> (s: &str)
        ensures
            s@ == self@,
            self.wf(),
    {
        proof {
            use_type_invariant(self);
        }
        self.text.as_str()
    }
}

impl Clone for PortId {
    fn clone(&self) -> (copy: PortId)
        ensures
            copy@ == self@,
    {
        proof {
            use_type_invariant(self);
        }
        PortId { text: self.text.clone() }
    }
}

/// The identifier of a channel.
#[derive(Debug, PartialEq, Eq)]
pub struct ChannelId {
    text: String,
}

impl View for ChannelId {
    type V = Seq<char>;

    closed spec fn view(&self) -> Seq<char> {
        self.text@
    }
}

impl ChannelId {
    /// Every channel identifier holds a text that was accepted.
    #[verifier::type_invariant]
    pub open spec fn wf(self) -> bool {
        channel_id_accepted(self@)
    }

    /// The channel identifier that `s` spells, if `s` is accepted as one.
    pub fn from_str(s: &str) -> (r: Result<
        ChannelId,
        ibc_core_host_types::error::IdentifierError,
    >)
        ensures
            r is Ok <==> channel_id_accepted(s@),
            r matches Ok(id) ==> id@ == s@,
    {
        match channel_id_text(s) {
            Ok(text) => Ok(ChannelId { text }),
            Err(e) => Err(e),
        }
    }

    /// The text of the identifier.
    pub fn as_str(&self) -> (s: &str)
        ensures
            s@ == self@,
            self.wf(),
    {
        proof {
            use_type_invariant(self);
        }
        self.text.as_str()
    }
}

impl Clone for ChannelId {
    fn clone(&self) -> (copy: ChannelId)
        ensures
            copy@ == self@,
    {
        proof {
            use_type_invariant(self);
        }
        ChannelId { text: self.text.clone() }
    }
}

/// The identifier of a connection.
#[derive(Debug, PartialEq, Eq)]
pub struct ConnectionId {
    text: String,
}

impl View for ConnectionId {
    type V = Seq<char>;

    closed spec fn view(&self) -> Seq<char> {
        self.text@
    }
}

impl ConnectionId {
    /// Every connection identifier holds a text that was accepted.
    #[verifier::type_invariant]
    pub open spec fn wf(self) -> bool {
        connection_id_accepted(self@)
    }

    /// The connection identifier that `s` spells, if `s` is accepted as one.
    pub fn from_str(s: &str) -> (r: Result<
        ConnectionId,
        ibc_core_host_types::error::IdentifierError,
    >)
        ensures
            r is Ok <==> connection_id_accepted(s@),
            r matches Ok(id) ==> id@ == s@,
    {
        match connection_id_text(s) {
            Ok(text) => Ok(ConnectionId { text }),
            Err(e) => Err(e),
        }
    }

    /// The text of the identifier.
    pub fn as_str(&self) -> (s: &str)
        ensures
            s@ == self@,
            self.wf(),
    {
        proof {
            use_type_invariant(self);
        }
        self.text.as_str()
    }
}

impl Clone for ConnectionId {
    fn clone(&self) -> (copy: ConnectionId)
        ensures
            copy@ == self@,
    {
        proof {
            use_type_invariant(self);
        }
        ConnectionId { text: self.text.clone() }
    }
}

/// The sequence number of a packet.
#[derive(Clone, Copy, Debug, PartialEq, Eq)]
pub struct Sequence {
    pub number: u64,
}

impl View for Sequence {
    type V = u64;

    open spec fn view(&self) -> u64 {
        self.number
    }
}

impl FromSpecImpl<u64> for Sequence {
    open spec fn obeys_from_spec() -> bool {
        true
    }

    open spec fn from_spec(number: u64) -> Sequence {
        Sequence { number }
    }
}

impl From<u64> for Sequence {
    fn from(number: u64) -> (sequence: Sequence) {
        Sequence { number }
    }
}

impl Sequence {
    /// The sequence number that `s` spells in decimal, if it spells one.
    pub fn from_str(s: &str) -> (r: Result<Sequence, ibc_core_host_types::error::IdentifierError>)
        ensures
            r is Ok <==> parse_u64(s@) is Some,
            r matches Ok(sequence) ==> parse_u64(s@) == Some(sequence@),
    {
        match sequence_number(s) {
            Ok(number) => Ok(Sequence { number }),
            Err(e) => Err(e),
        }
    }

    /// The number.
    pub fn value(&self) -> (number: u64)
        ensures
            number == self@,
    {
        self.number
    }

    /// The number in decimal.
    pub fn to_string(&self) -> (text: String)
        ensures
            text@ == decimal_text(self@ as nat),
    {
        sequence_text(self.number)
    }
}

} // verus!
