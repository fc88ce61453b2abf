//! Values of a channel: its version, its ordering, and an acknowledgement.

use vstd::prelude::*;
use crate::text::{bytes_of, lemma_bytes_of_text_of, same_bytes};

verus! {

/// The version of a channel: a text that the applications at both ends agree on. Any
/// text is a version.
#[derive(Debug, PartialEq, Eq)]
pub struct Version {
    pub text: String,
}

impl View for Version {
    type V = Seq<char>;

    open spec fn view(&self) -> Seq<char> {
        self.text@
    }
}

impl Clone for Version {
    fn clone(&self) -> (copy: Version)
        ensures
            copy@ == self@,
    {
        Version { text: self.text.clone() }
    }
}

impl Version {
    /// The version of text `text`.
    pub fn new(text: String) -> (version: Version)
        ensures
            version@ == text@,
    {
        Version { text }
    }

    /// The version that `s` spells.
    pub fn from_str(s: &str) -> (version: Version)
        ensures
            version@ == s@,
    {
        Version { text: s.to_owned() }
    }

    /// The text of the version.
    pub fn as_str(&self) -> (s: &str)
        ensures
            s@ == self@,
    {
        self.text.as_str()
    }
}

/// The order in which a channel delivers its packets.
#[derive(Clone, Copy, Debug, PartialEq, Eq, Structural)]
pub enum Order {
    Unspecified,
    Unordered,
    Ordered,
}

impl View for Order {
    type V = Order;

    open spec fn view(&self) -> Order {
        *self
    }
}

/// The text of an ordering.
pub open spec fn order_text(order: Order) -> Seq<char> {
    match order {
        Order::Unspecified => "ORDER_NONE_UNSPECIFIED"@,
        Order::Unordered => "ORDER_UNORDERED"@,
        Order::Ordered => "ORDER_ORDERED"@,
    }
}

/// The ordering that `text` names: the one whose text it is, letter for letter.
pub open spec fn parse_order(text: Seq<char>) -> Option<Order> {
    if text == order_text(Order::Unspecified) {
        Some(Order::Unspecified)
    } else if text == order_text(Order::Unordered) {
        Some(Order::Unordered)
    } else if text == order_text(Order::Ordered) {
        Some(Order::Ordered)
    } else {
        None
    }
}

/// The three orderings have three different texts, so each is read back from its own.
pub proof fn lemma_parse_order_text(order: Order)
    ensures
        parse_order(order_text(order)) == Some(order),
{
    reveal_strlit("ORDER_NONE_UNSPECIFIED");
    reveal_strlit("ORDER_UNORDERED");
    reveal_strlit("ORDER_ORDERED");
    assert("ORDER_NONE_UNSPECIFIED"@.len() == 22);
    assert("ORDER_UNORDERED"@.len() == 15);
    assert("ORDER_ORDERED"@.len() == 13);
}

impl Order {
    /// The text of the ordering.
    pub fn as_str(&self) -> (s: &'static str)
        ensures
            s@ == order_text(*self),
    {
        match self {
            Order::Unspecified => "ORDER_NONE_UNSPECIFIED",
            Order::Unordered => "ORDER_UNORDERED",
            Order::Ordered => "ORDER_ORDERED",
        }
    }

    /// The ordering that `s` names, if it names one.
    pub fn from_str(s: &str) -> (r: Option<Order>)
        ensures
            r == parse_order(s@),
    {
        proof {
            lemma_bytes_of_text_of(bytes_of(s@), order_text(Order::Unspecified));
            lemma_bytes_of_text_of(bytes_of(s@), order_text(Order::Unordered));
            lemma_bytes_of_text_of(bytes_of(s@), order_text(Order::Ordered));
            lemma_bytes_of_text_of(bytes_of(s@), s@);
        }
        if same_bytes(s.as_bytes(), Order::Unspecified.as_str().as_bytes()) {
            Some(Order::Unspecified)
        } else if same_bytes(s.as_bytes(), Order::Unordered.as_str().as_bytes()) {
            Some(Order::Unordered)
        } else if same_bytes(s.as_bytes(), Order::Ordered.as_str().as_bytes()) {
            Some(Order::Ordered)
        } else {
            None
        }
    }
}

/// The acknowledgement of a packet: bytes that the receiving application chose.
#[derive(Debug, PartialEq, Eq)]
pub struct Acknowledgement {
    pub bytes: Vec<u8>,
}

impl View for Acknowledgement {
    type V = Seq<u8>;

    open spec fn view(&self) -> Seq<u8> {
        self.bytes@
    }
}

impl Clone for Acknowledgement {
    fn clone(&self) -> (copy: Acknowledgement)
        ensures
            copy@ == self@,
    {
        Acknowledgement { bytes: self.bytes.clone() }
    }
}

impl Acknowledgement {
    /// The acknowledgement of bytes `bytes`.
    pub fn new(bytes: Vec<u8>) -> (ack: Acknowledgement)
        ensures
            ack@ == bytes@,
    {
        Acknowledgement { bytes }
    }

    /// The bytes of the acknowledgement.
    pub fn as_bytes(&self) -> (bytes: &[u8])
        ensures
            bytes@ == self@,
    {
        self.bytes.as_slice()
    }
}

} // verus!
