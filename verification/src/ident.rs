//! Entity identifiers: 128-bit values written and read in UUID notation.

use vstd::prelude::*;

verus! {

/// The identifier of an entity: the 128-bit value of a UUID.
#[derive(Clone, Copy, Debug, PartialEq, Eq, Structural, Hash)]
pub struct EntityId {
    pub value: u128,
}

/// The value that `uuid::Uuid::parse_str` reads from `text`, or `None` where
/// it rejects `text`.
pub uninterp spec fn uuid_from_text(text: Seq<char>) -> Option<u128>;

/// The digit that stands for `n` in lower-case hexadecimal notation.
pub open spec fn hex_char(n: int) -> char {
    "0123456789abcdef"@[n]
}

/// Which of the 32 hexadecimal digits of an identifier, counted from the most
/// significant one, is printed at position `i` of its 36-character form.
pub open spec fn digit_index(i: int) -> int {
    if i < 8 {
        i
    } else if i < 13 {
        i - 1
    } else if i < 18 {
        i - 2
    } else if i < 23 {
        i - 3
    } else {
        i - 4
    }
}

/// The `k`-th hexadecimal digit of `value`, counted from the most significant.
pub open spec fn hex_digit(value: u128, k: int) -> int {
    (value as int / vstd::arithmetic::power::pow(16, (31 - k) as nat)) % 16
}

/// The 36-character form of an identifier: 32 lower-case hexadecimal digits
/// in groups of 8, 4, 4, 4 and 12, separated by hyphens.
pub open spec fn hyphenated(value: u128) -> Seq<char> {
    Seq::new(
        36,
        |i: int|
            if i == 8 || i == 13 || i == 18 || i == 23 {
                '-'
            } else {
                hex_char(hex_digit(value, digit_index(i)))
            },
    )
}

/// What every random (version 4) UUID has: version digit 4 and the two top
/// bits of the variant digit set to `10`.
pub open spec fn is_version_four(value: u128) -> bool {
    (value >> 76u128) & 0xf == 4 && (value >> 62u128) & 0x3 == 2
}

/// Calls `uuid::Uuid::parse_str`. Trusted: the result is the 128-bit value of
/// the UUID that the parser read, and `None` exactly where it returned an
/// error; the parser's answer depends on the text alone.
#[verifier::external_body]
fn parse_uuid(text: &str) -> (r: Option<u128>)
    ensures
        r == uuid_from_text(text@),
{
    match uuid::Uuid::parse_str(text) {
        Ok(parsed) => Some(parsed.as_u128()),
        Err(_) => None,
    }
}

/// Calls `to_string` on a `uuid::Uuid`. Trusted: the text is the lower-case
/// hyphenated form of the value, and `uuid::Uuid::parse_str` reads the value
/// back from it.
#[verifier::external_body]
fn uuid_to_text(value: u128) -> (r: String)
    ensures
        r@ == hyphenated(value),
        uuid_from_text(r@) == Some(value),
{
    uuid::Uuid::from_u128(value).to_string()
}

/// Calls `uuid::Uuid::new_v4`. Trusted: the value carries the version and
/// variant marks of a random UUID; nothing is claimed of its other bits.
#[verifier::external_body]
fn random_uuid() -> (r: u128)
    ensures
        is_version_four(r),
{
    uuid::Uuid::new_v4().as_u128()
}

impl EntityId {
    /// The identifier that `text` denotes, if it denotes one.
    pub open spec fn parsed(text: Seq<char>) -> Option<EntityId> {
        match uuid_from_text(text) {
            Some(value) => Some(EntityId { value }),
            None => None,
        }
    }

    /// Reads an identifier in any of the notations that the `uuid` crate
    /// accepts.
    pub fn parse(text: &str) -> (r: Option<EntityId>)
        ensures
            r == Self::parsed(text@),
    {
        match parse_uuid(text) {
            Some(value) => Some(EntityId { value }),
            None => None,
        }
    }

    /// The identifier in its 36-character hyphenated form, from which
    /// `parse` reads it back.
    pub fn to_text(&self) -> (r: String)
        ensures
            r@ == hyphenated(self.value),
            Self::parsed(r@) == Some(*self),
    {
        uuid_to_text(self.value)
    }

    /// Draws a random identifier.
    pub fn random() -> (r: EntityId)
        ensures
            is_version_four(r.value),
    {
        EntityId { value: random_uuid() }
    }
}

} // verus!
