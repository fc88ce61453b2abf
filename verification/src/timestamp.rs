//! The time at which a packet times out.

use vstd::prelude::*;
use crate::decimal::parse_u64;

verus! {

/// The error of `Timestamp::from_nanoseconds` of `ibc_primitives`. It is handed on as it
/// is.
#[verifier::external_type_specification]
#[verifier::external_body]
pub struct ExParseTimestampError(ibc_primitives::ParseTimestampError);

/// The time that `text` spells: a decimal count of nanoseconds. Every count is a time.
pub open spec fn parse_timestamp(text: Seq<char>) -> Option<u64> {
    parse_u64(text)
}

/// `Timestamp::from_nanoseconds` of `ibc_primitives`, followed by `nanoseconds`. The
/// source takes zero for no time, and makes of any other count a date between the years
/// 1970 and 2554, which `time` and `tendermint` both hold; so it refuses no `u64`. The
/// timestamp gives back the count it was made of.
#[verifier::external_body]
fn timestamp_nanoseconds(nanoseconds: u64) -> (r: Result<u64, ibc_primitives::ParseTimestampError>)
    ensures
        r is Ok,
        r matches Ok(count) ==> count == nanoseconds,
{
    match ibc_primitives::Timestamp::from_nanoseconds(nanoseconds) {
        Ok(timestamp) => Ok(timestamp.nanoseconds()),
        Err(e) => Err(e),
    }
}

/// A time, counted in nanoseconds since the Unix epoch. Zero stands for no time at all.
#[derive(Clone, Copy, Debug, PartialEq, Eq)]
pub struct Timestamp {
    nanoseconds: u64,
}

impl View for Timestamp {
    type V = u64;

    closed spec fn view(&self) -> u64 {
        self.nanoseconds
    }
}

impl Timestamp {
    /// The time of `nanoseconds` nanoseconds since the Unix epoch. No count is refused.
    pub fn from_nanoseconds(nanoseconds: u64) -> (r: Result<
        Timestamp,
        ibc_primitives::ParseTimestampError,
    >)
        ensures
            r matches Ok(timestamp) && timestamp@ == nanoseconds,
    {
        match timestamp_nanoseconds(nanoseconds) {
            Ok(count) => Ok(Timestamp { nanoseconds: count }),
            Err(e) => Err(e),
        }
    }

    /// The count of nanoseconds since the Unix epoch.
    pub fn nanoseconds(&self) -> (count: u64)
        ensures
            count == self@,
    {
        self.nanoseconds
    }
}

} // verus!
