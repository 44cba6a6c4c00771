//! Identifiers: 128-bit UUIDs, kept as the number their sixteen bytes spell.

use vstd::prelude::*;
use vstd::string::*;

use crate::text::decimal_text;

verus! {

/// A UUID. `value` reads its bytes in order, the first one as the most significant.
#[derive(Clone, Copy, PartialEq, Eq, Hash, Debug, Structural)]
pub struct Uuid {
    /// The number that the sixteen bytes spell.
    pub value: u128,
}

/// The number that `bytes` spell, the first one as the most significant.
pub open spec fn big_endian(bytes: Seq<u8>) -> nat
    decreases bytes.len(),
{
    if bytes.len() == 0 {
        0
    } else {
        256 * big_endian(bytes.drop_last()) + bytes.last() as nat
    }
}

/// The lower-case hexadecimal digit `d`.
pub open spec fn hex_char(d: nat) -> char {
    if d < 10 {
        (48 + d) as char
    } else {
        (87 + d) as char
    }
}

/// A number in lower-case hexadecimal, with `digits` digits.
pub open spec fn hex_text(n: nat, digits: nat) -> Seq<char>
    decreases digits,
{
    if digits == 0 {
        Seq::empty()
    } else {
        hex_text(n / 16, (digits - 1) as nat).push(hex_char(n % 16))
    }
}

/// The thirty-two hexadecimal digits of a UUID in groups of 8, 4, 4, 4 and 12, with a
/// hyphen between two groups.
pub open spec fn hyphenated(n: nat) -> Seq<char> {
    let digits = hex_text(n, 32);
    digits.subrange(0, 8) + "-"@ + digits.subrange(8, 12) + "-"@ + digits.subrange(12, 16) + "-"@
        + digits.subrange(16, 20) + "-"@ + digits.subrange(20, 32)
}

/// What is said of a byte string that is no UUID.
pub open spec fn uuid_length_text(len: nat) -> Seq<char> {
    "invalid length: expected 16 bytes, found "@ + decimal_text(len)
}

/// The bits of a UUID that hold its version.
pub open spec fn uuid_version(n: nat) -> nat {
    (n / 0x1000_0000_0000_0000_0000) % 16
}

/// The two bits of a UUID that hold its variant.
pub open spec fn uuid_variant(n: nat) -> nat {
    (n / 0x4000_0000_0000_0000) % 4
}

/// UUIDs that were drawn at random, as their version and variant tell.
pub open spec fn all_random(ids: Seq<Uuid>) -> bool {
    forall|i: int|
        0 <= i < ids.len() ==> uuid_version((#[trigger] ids[i]).value as nat) == 4 && uuid_variant(
            ids[i].value as nat,
        ) == 2
}

/// `uuid::Uuid::from_slice`: sixteen bytes are a UUID, read in order; any other number of
/// bytes is refused, with a text that tells the number.
#[verifier::external_body]
fn uuid_from_slice(bytes: &[u8]) -> (r: Result<u128, String>)
    ensures
        match r {
            Ok(n) => bytes@.len() == 16 && n as nat == big_endian(bytes@),
            Err(e) => bytes@.len() != 16 && e@ == uuid_length_text(bytes@.len()),
        },
{
    uuid::Uuid::from_slice(bytes).map(|u| u.as_u128()).map_err(|e| e.to_string())
}

/// `Display` of `uuid::Uuid`: the lower-case hyphenated form.
#[verifier::external_body]
fn uuid_text(n: u128) -> (r: String)
    ensures
        r@ == hyphenated(n as nat),
{
    uuid::Uuid::from_u128(n).to_string()
}

/// What `uuid::Uuid::parse_str` makes of a text: the number that the UUID's bytes spell, or the
/// text of the error.
pub uninterp spec fn uuid_parse(s: Seq<char>) -> Result<u128, Seq<char>>;

/// `uuid::Uuid::parse_str`: the result depends on the text alone, and the hyphenated form of a
/// UUID reads back as that UUID.
#[verifier::external_body]
fn parse_uuid(s: &str) -> (r: Result<u128, String>)
    ensures
        match r {
            Ok(n) => uuid_parse(s@) is Ok && uuid_parse(s@)->Ok_0 == n,
            Err(e) => uuid_parse(s@) is Err && uuid_parse(s@)->Err_0 == e@,
        },
        forall|n: u128| s@ == #[trigger] hyphenated(n as nat) ==> r is Ok && r->Ok_0 == n,
{
    uuid::Uuid::parse_str(s).map(|u| u.as_u128()).map_err(|e| e.to_string())
}

/// `uuid::Uuid::new_v4`: a random UUID of version 4. Which one is left open.
#[verifier::external_body]
fn random_uuid() -> (r: u128)
    ensures
        uuid_version(r as nat) == 4,
        uuid_variant(r as nat) == 2,
{
    uuid::Uuid::new_v4().as_u128()
}

/// `uuid7::uuid7`: a UUID of version 7, made of the clock and of chance. Which one is left
/// open, and so is that later ones are greater: a clock that is set back breaks it.
#[verifier::external_body]
fn time_ordered_uuid() -> (r: u128)
    ensures
        uuid_version(r as nat) == 7,
        uuid_variant(r as nat) == 2,
{
    uuid::Uuid::from_bytes(*uuid7::uuid7().as_bytes()).as_u128()
}

impl Uuid {
    /// The UUID whose bytes spell `value`.
    pub fn from_u128(value: u128) -> (r: Self)
        ensures
            r.value == value,
    {
        Uuid { value }
    }

    /// The number that the bytes spell.
    pub fn as_u128(&self) -> (r: u128)
        ensures
            r == self.value,
    {
        self.value
    }

    /// Reads a UUID from its sixteen bytes.
    pub fn from_slice(bytes: &[u8]) -> (r: Result<Self, String>)
        ensures
            match r {
                Ok(u) => bytes@.len() == 16 && u.value as nat == big_endian(bytes@),
                Err(e) => bytes@.len() != 16 && e@ == uuid_length_text(bytes@.len()),
            },
    {
        match uuid_from_slice(bytes) {
            Ok(value) => Ok(Uuid { value }),
            Err(e) => Err(e),
        }
    }

    /// Reads a UUID from text.
    pub fn parse_str(s: &str) -> (r: Result<Self, String>)
        ensures
            match r {
                Ok(u) => uuid_parse(s@) is Ok && uuid_parse(s@)->Ok_0 == u.value,
                Err(e) => uuid_parse(s@) is Err && uuid_parse(s@)->Err_0 == e@,
            },
            forall|n: u128|
                s@ == #[trigger] hyphenated(n as nat) ==> r is Ok && r->Ok_0.value == n,
    {
        match parse_uuid(s) {
            Ok(value) => Ok(Uuid { value }),
            Err(e) => Err(e),
        }
    }

    /// The hyphenated form.
    pub fn to_string(&self) -> (r: String)
        ensures
            r@ == hyphenated(self.value as nat),
    {
        uuid_text(self.value)
    }

    /// Draws a random UUID.
    pub fn new_v4() -> (r: Self)
        ensures
            uuid_version(r.value as nat) == 4,
            uuid_variant(r.value as nat) == 2,
    {
        Uuid { value: random_uuid() }
    }

    /// Draws a time-ordered UUID.
    pub fn new_v7() -> (r: Self)
        ensures
            uuid_version(r.value as nat) == 7,
            uuid_variant(r.value as nat) == 2,
    {
        Uuid { value: time_ordered_uuid() }
    }
}

} // verus!
