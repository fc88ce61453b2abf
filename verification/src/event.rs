//! The key/value pair of an event log.

use vstd::prelude::*;
use crate::text::{as_text, bytes_of, text_of};

verus! {

/// One attribute of an event as the log holds it: a key and a value, both byte strings.
/// Attributes that this crate writes hold text in both; one read from a log may not.
#[derive(Debug, PartialEq, Eq)]
pub struct EventAttribute {
    pub key: Vec<u8>,
    pub value: Vec<u8>,
}

/// An `EventAttribute` as a mathematical value.
pub struct EventAttributeView {
    pub key: Seq<u8>,
    pub value: Seq<u8>,
}

impl View for EventAttribute {
    type V = EventAttributeView;

    open spec fn view(&self) -> EventAttributeView {
        EventAttributeView { key: self.key@, value: self.value@ }
    }
}

impl Clone for EventAttribute {
    fn clone(&self) -> (copy: EventAttribute)
        ensures
            copy@ == self@,
    {
        EventAttribute { key: self.key.clone(), value: self.value.clone() }
    }
}

/// The pair that holds the texts `key` and `value`.
pub open spec fn text_pair(key: Seq<char>, value: Seq<char>) -> EventAttributeView {
    EventAttributeView { key: bytes_of(key), value: bytes_of(value) }
}

impl EventAttribute {
    /// The pair of two texts.
    pub fn new(key: &str, value: &str) -> (pair: EventAttribute)
        ensures
            pair@ == text_pair(key@, value@),
    {
        EventAttribute { key: key.as_bytes_vec(), value: value.as_bytes_vec() }
    }

    /// The pair of a text key and a value of any bytes.
    pub fn with_value_bytes(key: &str, value: Vec<u8>) -> (pair: EventAttribute)
        ensures
            pair@ == (EventAttributeView { key: bytes_of(key@), value: value@ }),
    {
        EventAttribute { key: key.as_bytes_vec(), value }
    }

    /// The key, as bytes.
    pub fn key_bytes(&self) -> (bytes: &[u8])
        ensures
            bytes@ == self@.key,
    {
        self.key.as_slice()
    }

    /// The value, as bytes.
    pub fn value_bytes(&self) -> (bytes: &[u8])
        ensures
            bytes@ == self@.value,
    {
        self.value.as_slice()
    }

    /// The key as text, where it is text.
    pub fn key_str(&self) -> (r: Option<&str>)
        ensures
            match r {
                Some(s) => text_of(self@.key) == Some(s@),
                None => text_of(self@.key) is None,
            },
    {
        as_text(self.key.as_slice())
    }

    /// The value as text, where it is text.
    pub fn value_str(&self) -> (r: Option<&str>)
        ensures
            match r {
                Some(s) => text_of(self@.value) == Some(s@),
                None => text_of(self@.value) is None,
            },
    {
        as_text(self.value.as_slice())
    }
}

} // verus!
