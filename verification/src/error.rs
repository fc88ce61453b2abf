//! What can go wrong when an attribute is written to, or read from, an event log.

use vstd::prelude::*;

verus! {

/// The failures of the attribute conversions.
#[derive(Debug, PartialEq, Eq)]
pub enum ChannelError {
    /// The key of a pair is not text, or is not the key of the attribute that was asked
    /// for. Holds the key where it is text, and nothing where it is not.
    InvalidAttributeKey { attribute_key: String },
    /// The value of a pair is not text, or is text that the attribute's type refuses.
    /// Holds the value where it is text that was refused, and nothing otherwise.
    InvalidAttributeValue { attribute_value: String },
    /// An attribute of several pairs was given another number of pairs.
    InvalidAttributeCount { expected: usize, actual: usize },
    /// Bytes that must also be written as text are not well-formed UTF-8.
    NonUtf8PacketData,
    /// The plain and the hexadecimal form of one payload hold different bytes.
    MismatchedPacketData,
}

/// A `ChannelError` as a mathematical value.
pub enum ChannelErrorView {
    InvalidAttributeKey { attribute_key: Seq<char> },
    InvalidAttributeValue { attribute_value: Seq<char> },
    InvalidAttributeCount { expected: nat, actual: nat },
    NonUtf8PacketData,
    MismatchedPacketData,
}

impl View for ChannelError {
    type V = ChannelErrorView;

    open spec fn view(&self) -> ChannelErrorView {
        match self {
            ChannelError::InvalidAttributeKey { attribute_key } => {
                ChannelErrorView::InvalidAttributeKey { attribute_key: attribute_key@ }
            },
            ChannelError::InvalidAttributeValue { attribute_value } => {
                ChannelErrorView::InvalidAttributeValue { attribute_value: attribute_value@ }
            },
            ChannelError::InvalidAttributeCount { expected, actual } => {
                ChannelErrorView::InvalidAttributeCount {
                    expected: *expected as nat,
                    actual: *actual as nat,
                }
            },
            ChannelError::NonUtf8PacketData => ChannelErrorView::NonUtf8PacketData,
            ChannelError::MismatchedPacketData => ChannelErrorView::MismatchedPacketData,
        }
    }
}

impl Clone for ChannelError {
    fn clone(&self) -> (copy: ChannelError)
        ensures
            copy@ == self@,
    {
        match self {
            ChannelError::InvalidAttributeKey { attribute_key } => {
                ChannelError::InvalidAttributeKey { attribute_key: attribute_key.clone() }
            },
            ChannelError::InvalidAttributeValue { attribute_value } => {
                ChannelError::InvalidAttributeValue { attribute_value: attribute_value.clone() }
            },
            ChannelError::InvalidAttributeCount { expected, actual } => {
                ChannelError::InvalidAttributeCount { expected: *expected, actual: *actual }
            },
            ChannelError::NonUtf8PacketData => ChannelError::NonUtf8PacketData,
            ChannelError::MismatchedPacketData => ChannelError::MismatchedPacketData,
        }
    }
}

/// The error for a key that is not the expected one: it holds the text of `key`, or
/// nothing where `key` is not text.
pub open spec fn invalid_key(key: Seq<u8>) -> ChannelErrorView {
    ChannelErrorView::InvalidAttributeKey {
        attribute_key: match crate::text::text_of(key) {
            Some(text) => text,
            None => Seq::empty(),
        },
    }
}

/// The error for a value that was refused: it holds `text`.
pub open spec fn invalid_value(text: Seq<char>) -> ChannelErrorView {
    ChannelErrorView::InvalidAttributeValue { attribute_value: text }
}

} // verus!
