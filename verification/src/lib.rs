//! Event attributes of the channel and packet lifecycle.
//!
//! A typed attribute (a port identifier, a packet sequence, a timeout height, the bytes
//! of a packet, ...) is written to an event log as one or two key/value pairs, and read
//! back from such pairs. Every conversion carries a contract over a mathematical model
//! of the pair and of the attribute, and the round trip through the log is proved for
//! every attribute that is read back.
//!
//! - `event` and `error` hold the pair and the failures.
//! - `channel_attributes` and `packet_attributes` hold the attributes with their
//!   conversions; `keys` holds the keys they stand under.
//! - `codec` and `payload` hold what the conversions share, and their models.
//! - `identifiers`, `channel`, `height` and `timestamp` hold the values of attributes.
//!   Identifiers, heights and timestamps are decided on by the `ibc` crates.
//! - `text`, `decimal` and `hex` are about bytes as text, numerals and hexadecimal.
//! - `laws` states what holds of all conversions.

pub mod channel;
pub mod channel_attributes;
pub mod codec;
pub mod decimal;
pub mod error;
pub mod event;
pub mod height;
pub mod hex;
pub mod identifiers;
pub mod keys;
pub mod laws;
pub mod packet_attributes;
pub mod payload;
pub mod text;
pub mod timestamp;
