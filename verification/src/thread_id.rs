//! Thread identifiers: UUIDs, parsed and printed by the `uuid` crate.
use vstd::prelude::*;
use vstd::arithmetic::power::pow;

verus! {

/// What `uuid::Uuid::parse_str` makes of `text`: the UUID's 128-bit value,
/// or `None` where the text is not a UUID.
pub uninterp spec fn uuid_parse(text: Seq<char>) -> Option<u128>;

/// Lower-case hexadecimal digit for `n` in `0..16`.
pub open spec fn lower_hex_digit(n: int) -> char {
    if n < 10 {
        ('0' as int + n) as char
    } else {
        ('a' as int + n - 10) as char
    }
}

/// The `i`-th hexadecimal digit (most significant first) of `v`.
pub open spec fn uuid_nibble(v: u128, i: int) -> int {
    (v as int / pow(16, (31 - i) as nat)) % 16
}

/// The number of hyphens that come before position `k` of the hyphenated form.
pub open spec fn hyphens_before(k: int) -> int {
    if k < 8 {
        0
    } else if k < 13 {
        1
    } else if k < 18 {
        2
    } else if k < 23 {
        3
    } else {
        4
    }
}

/// The hyphenated lower-case form of a UUID, `xxxxxxxx-xxxx-xxxx-xxxx-xxxxxxxxxxxx`,
/// which is what `Display` of `uuid::Uuid` prints.
pub open spec fn uuid_hyphenated(v: u128) -> Seq<char> {
    Seq::new(
        36,
        |k: int|
            if k == 8 || k == 13 || k == 18 || k == 23 {
                '-'
            } else {
                lower_hex_digit(uuid_nibble(v, k - hyphens_before(k)))
            },
    )
}

/// `uuid::Uuid::parse_str`, giving the UUID's value (`Uuid::as_u128`).
/// Claims that the result is a function of the text alone.
#[verifier::external_body]
fn parse_uuid(text: &str) -> (r: Option<u128>)
    ensures
        r == uuid_parse(text@),
{
    uuid::Uuid::parse_str(text).ok().map(|u| u.as_u128())
}

/// `Display` of `uuid::Uuid::from_u128(v)`. Claims that it prints the
/// hyphenated lower-case hexadecimal form of the value, as the crate documents.
#[verifier::external_body]
fn format_uuid(v: u128) -> (r: String)
    ensures
        r@ == uuid_hyphenated(v),
{
    uuid::Uuid::from_u128(v).to_string()
}

/// Why a string is not a thread id.
#[derive(Debug, Clone, Copy, PartialEq, Eq, Structural)]
pub enum ThreadIdParseError {
    InvalidUuid,
}

/// Identifier of a conversation thread: a UUID.
#[derive(Debug, Clone, Copy, PartialEq, Eq, Structural)]
pub struct ThreadId {
    uuid: u128,
}

impl View for ThreadId {
    type V = u128;

    /// The UUID's 128-bit value.
    closed spec fn view(&self) -> u128 {
        self.uuid
    }
}

impl ThreadId {
    /// Parses a thread id from its textual UUID form.
    pub fn from_string(text: &str) -> (r: Result<ThreadId, ThreadIdParseError>)
        ensures
            match r {
                Ok(id) => uuid_parse(text@) == Some(id@),
                Err(_) => uuid_parse(text@) is None,
            },
    {
        match parse_uuid(text) {
            Some(v) => Ok(ThreadId { uuid: v }),
            None => Err(ThreadIdParseError::InvalidUuid),
        }
    }

    /// The id in hyphenated lower-case form, as `Display` prints it.
    pub fn to_string(&self) -> (r: String)
        ensures
            r@ == uuid_hyphenated(self@),
    {
        format_uuid(self.uuid)
    }
}

} // verus!
