//! The height of a chain, and the height at which a packet times out.

use core::str::FromStr;
use vstd::prelude::*;
use vstd::std_specs::convert::FromSpecImpl;
use crate::decimal::{
    decimal_text, is_digit, lemma_decimal_text, lemma_parse_decimal_text, parse_u64,
    u64_from_text,
};

verus! {

/// The error of the height parser of `ibc_core_client_types`. It is handed on as it is.
#[verifier::external_type_specification]
#[verifier::external_body]
pub struct ExHeightError(ibc_core_client_types::HeightError);

/// The numbers of a height.
pub struct HeightView {
    pub revision_number: u64,
    pub revision_height: u64,
}

/// The text of a height: the revision number, a hyphen, the height within the revision.
pub open spec fn height_text(height: HeightView) -> Seq<char> {
    decimal_text(height.revision_number as nat) + seq!['-'] + decimal_text(
        height.revision_height as nat,
    )
}

/// The two numbers that `text` spells: the text is cut at its first hyphen, and both
/// parts have to spell a `u64`.
pub open spec fn parse_numbers(text: Seq<char>) -> Option<(u64, u64)> {
    match text.index_of_first('-') {
        Some(cut) => match (
            parse_u64(text.subrange(0, cut)),
            parse_u64(text.subrange(cut + 1, text.len() as int)),
        ) {
            (Some(first), Some(second)) => Some((first, second)),
            _ => None,
        },
        None => None,
    }
}

/// The height that `text` spells: two numbers, of which the second, the height within
/// the revision, is not zero.
pub open spec fn parse_height(text: Seq<char>) -> Option<HeightView> {
    match parse_numbers(text) {
        Some((revision_number, revision_height)) => if revision_height != 0 {
            Some(HeightView { revision_number, revision_height })
        } else {
            None
        },
        None => None,
    }
}

/// The text of two numbers with a hyphen between them reads back as the two numbers.
pub proof fn lemma_parse_numbers_text(first: u64, second: u64)
    ensures
        parse_numbers(decimal_text(first as nat) + seq!['-'] + decimal_text(second as nat))
            == Some((first, second)),
{
    let before = decimal_text(first as nat);
    let after = decimal_text(second as nat);
    let text = before + seq!['-'] + after;
    lemma_decimal_text(first as nat);
    lemma_decimal_text(second as nat);
    lemma_parse_decimal_text(first);
    lemma_parse_decimal_text(second);
    // The first hyphen of the text is the one between its two numerals.
    let at = before.len() as int;
    assert(text[at] == '-');
    assert forall|j: int| 0 <= j < at implies text[j] != '-' by {
        assert(is_digit(before[j]));
    }
    text.index_of_first_ensures('-');
    let cut = text.index_of_first('-').unwrap();
    assert(cut == at);
    assert(text.subrange(0, cut) =~= before);
    assert(text.subrange(cut + 1, text.len() as int) =~= after);
}

/// The text of a height reads back as that height.
pub proof fn lemma_parse_height_text(height: HeightView)
    requires
        height.revision_height != 0,
    ensures
        parse_height(height_text(height)) == Some(height),
{
    lemma_parse_numbers_text(height.revision_number, height.revision_height);
}

/// `str::split_once` of std, with a hyphen to split at: the part before the first
/// hyphen and the part behind it, or nothing where there is no hyphen.
#[verifier::external_body]
fn split_at_hyphen(s: &str) -> (r: Option<(&str, &str)>)
    ensures
        match r {
            Some((before, after)) => {
                &&& s@.index_of_first('-') == Some(before@.len() as int)
                &&& before@ == s@.subrange(0, before@.len() as int)
                &&& after@ == s@.subrange(before@.len() as int + 1, s@.len() as int)
            },
            None => s@.index_of_first('-') is None,
        },
{
    s.split_once('-')
}

/// `Height::from_str` of `ibc_core_client_types`, followed by the two getters. The
/// source cuts the text at its first hyphen, parses both parts as `u64` with std, and
/// refuses a height of zero within the revision.
#[verifier::external_body]
fn height_numbers(s: &str) -> (r: Result<(u64, u64), ibc_core_client_types::HeightError>)
    ensures
        r is Ok <==> parse_height(s@) is Some,
        r matches Ok(numbers) ==> parse_height(s@) == Some(
            HeightView { revision_number: numbers.0, revision_height: numbers.1 },
        ),
{
    match ibc_core_client_types::Height::from_str(s) {
        Ok(height) => Ok((height.revision_number(), height.revision_height())),
        Err(e) => Err(e),
    }
}

/// `Height::new` of `ibc_core_client_types`, followed by `to_string`. The source makes
/// no height with a height of zero within the revision, and writes any other as the two
/// numbers with a hyphen between them.
#[verifier::external_body]
fn height_string(revision_number: u64, revision_height: u64) -> (r: Option<String>)
    ensures
        r is Some <==> revision_height != 0,
        r matches Some(text) ==> text@ == height_text(
            HeightView { revision_number, revision_height },
        ),
{
    match ibc_core_client_types::Height::new(revision_number, revision_height) {
        Ok(height) => Some(height.to_string()),
        Err(_) => None,
    }
}

/// A height of a chain: the number of its revision, and the height within the revision,
/// which is never zero.
#[derive(Clone, Copy, Debug, PartialEq, Eq)]
pub struct Height {
    revision_number: u64,
    revision_height: u64,
}

impl View for Height {
    type V = HeightView;

    closed spec fn view(&self) -> HeightView {
        HeightView {
            revision_number: self.revision_number,
            revision_height: self.revision_height,
        }
    }
}

impl Height {
    /// The height within the revision is not zero.
    #[verifier::type_invariant]
    pub open spec fn wf(self) -> bool {
        self@.revision_height != 0
    }

    /// The height of these two numbers, unless the second is zero.
    pub fn new(revision_number: u64, revision_height: u64) -> (r: Option<Height>)
        ensures
            r is Some <==> revision_height != 0,
            r matches Some(height) ==> height@ == (HeightView { revision_number, revision_height }),
    {
        if revision_height == 0 {
            None
        } else {
            Some(Height { revision_number, revision_height })
        }
    }

    /// The number of the revision.
    pub fn revision_number(&self) -> (number: u64)
        ensures
            number == self@.revision_number,
    {
        self.revision_number
    }

    /// The height within the revision.
    pub fn revision_height(&self) -> (height: u64)
        ensures
            height == self@.revision_height,
            height != 0,
    {
        proof {
            use_type_invariant(self);
        }
        self.revision_height
    }

    /// The height that `s` spells, if it spells one.
    pub fn from_str(s: &str) -> (r: Result<Height, ibc_core_client_types::HeightError>)
        ensures
            r is Ok <==> parse_height(s@) is Some,
            r matches Ok(height) ==> parse_height(s@) == Some(height@),
    {
        match height_numbers(s) {
            Ok(numbers) => Ok(
                Height { revision_number: numbers.0, revision_height: numbers.1 },
            ),
            Err(e) => Err(e),
        }
    }

    /// The text of the height.
    pub fn to_string(&self) -> (text: String)
        ensures
            text@ == height_text(self@),
    {
        proof {
            use_type_invariant(self);
        }
        match height_string(self.revision_number, self.revision_height) {
            Some(text) => text,
            // Not taken: the height within the revision is not zero.
            None => String::new(),
        }
    }
}

/// The height at which a packet times out, if it does so at any height.
#[derive(Clone, Copy, Debug, PartialEq, Eq)]
pub enum TimeoutHeight {
    Never,
    At(Height),
}

/// A `TimeoutHeight` as a mathematical value.
pub enum TimeoutHeightView {
    Never,
    At(HeightView),
}

impl View for TimeoutHeight {
    type V = TimeoutHeightView;

    open spec fn view(&self) -> TimeoutHeightView {
        match self {
            TimeoutHeight::Never => TimeoutHeightView::Never,
            TimeoutHeight::At(height) => TimeoutHeightView::At(height@),
        }
    }
}

impl FromSpecImpl<Height> for TimeoutHeight {
    open spec fn obeys_from_spec() -> bool {
        true
    }

    open spec fn from_spec(height: Height) -> TimeoutHeight {
        TimeoutHeight::At(height)
    }
}

impl From<Height> for TimeoutHeight {
    fn from(height: Height) -> (timeout: TimeoutHeight) {
        TimeoutHeight::At(height)
    }
}

/// The text of a timeout height: `0-0` for none, else the text of the height.
pub open spec fn timeout_height_text(timeout: TimeoutHeightView) -> Seq<char> {
    match timeout {
        TimeoutHeightView::Never => "0-0"@,
        TimeoutHeightView::At(height) => height_text(height),
    }
}

/// The timeout height that `text` spells. Revision zero with height zero, which no
/// height has, stands for no timeout; any other two numbers have to make a height.
pub open spec fn parse_timeout_height(text: Seq<char>) -> Option<TimeoutHeightView> {
    match parse_numbers(text) {
        Some((revision_number, revision_height)) => if revision_number == 0 && revision_height
            == 0 {
            Some(TimeoutHeightView::Never)
        } else if revision_height != 0 {
            Some(TimeoutHeightView::At(HeightView { revision_number, revision_height }))
        } else {
            None
        },
        None => None,
    }
}

/// Whether a timeout height is one that a `TimeoutHeight` can hold.
pub open spec fn timeout_height_wf(timeout: TimeoutHeightView) -> bool {
    timeout matches TimeoutHeightView::At(height) ==> height.revision_height != 0
}

/// The text `0-0` is what revision zero with height zero would be written as.
pub proof fn lemma_never_text()
    ensures
        "0-0"@ == height_text(HeightView { revision_number: 0, revision_height: 0 }),
{
    reveal_strlit("0-0");
    assert("0-0"@ =~= decimal_text(0) + seq!['-'] + decimal_text(0));
}

/// The text of a timeout height reads back as that timeout height.
pub proof fn lemma_parse_timeout_height_text(timeout: TimeoutHeightView)
    requires
        timeout_height_wf(timeout),
    ensures
        parse_timeout_height(timeout_height_text(timeout)) == Some(timeout),
{
    match timeout {
        TimeoutHeightView::Never => {
            lemma_never_text();
            lemma_parse_numbers_text(0, 0);
        },
        TimeoutHeightView::At(height) => {
            lemma_parse_numbers_text(height.revision_number, height.revision_height);
        },
    }
}

impl TimeoutHeight {
    /// The text of the timeout height.
    pub fn to_string(&self) -> (text: String)
        ensures
            text@ == timeout_height_text(self@),
    {
        match self {
            TimeoutHeight::Never => "0-0".to_owned(),
            TimeoutHeight::At(height) => height.to_string(),
        }
    }

    /// The timeout height that `s` spells, if it spells one.
    pub fn from_str(s: &str) -> (r: Result<TimeoutHeight, ibc_core_client_types::HeightError>)
        ensures
            r is Ok <==> parse_timeout_height(s@) is Some,
            r matches Ok(timeout) ==> parse_timeout_height(s@) == Some(timeout@),
    {
        match Height::from_str(s) {
            Ok(height) => Ok(TimeoutHeight::At(height)),
            Err(e) => if spells_zero_zero(s) {
                Ok(TimeoutHeight::Never)
            } else {
                Err(e)
            },
        }
    }
}

/// Whether `s` spells revision zero with height zero.
fn spells_zero_zero(s: &str) -> (zero: bool)
    ensures
        zero == (parse_numbers(s@) == Some((0u64, 0u64))),
{
    match split_at_hyphen(s) {
        Some((before, after)) => match (u64_from_text(before), u64_from_text(after)) {
            (Some(first), Some(second)) => first == 0 && second == 0,
            _ => false,
        },
        None => false,
    }
}

} // verus!
