//! Identifiers of systems and players: 128 bits, written and read as UUIDs.

use vstd::arithmetic::power::pow;
use vstd::prelude::*;

verus! {

/// The hexadecimal digits, in lower case.
pub open spec fn hex_digits() -> Seq<char> {
    seq!['0', '1', '2', '3', '4', '5', '6', '7', '8', '9', 'a', 'b', 'c', 'd', 'e', 'f']
}

/// The hexadecimal digit of an identifier at the place `at`, the place 0
/// being that of the highest four bits and the place 31 that of the lowest.
pub open spec fn uuid_digit(uuid: u128, at: int) -> char {
    hex_digits()[(uuid as int / pow(16, (31 - at) as nat)) % 16]
}

/// The text that stands for an identifier: its 32 hexadecimal digits, the
/// highest first, in groups of 8, 4, 4, 4 and 12 with a hyphen between them.
pub open spec fn uuid_text(uuid: u128) -> Seq<char> {
    Seq::new(
        36,
        |at: int|
            if at == 8 || at == 13 || at == 18 || at == 23 {
                '-'
            } else if at < 8 {
                uuid_digit(uuid, at)
            } else if at < 13 {
                uuid_digit(uuid, at - 1)
            } else if at < 18 {
                uuid_digit(uuid, at - 2)
            } else if at < 23 {
                uuid_digit(uuid, at - 3)
            } else {
                uuid_digit(uuid, at - 4)
            },
    )
}

/// The identifier that a text stands for, if it stands for one: what
/// `uuid::Uuid::parse_str` reads from it.
pub uninterp spec fn uuid_parse(text: Seq<char>) -> Option<u128>;

/// Whether an identifier is read back from the text that stands for it.
pub open spec fn reads_back(uuid: u128) -> bool {
    uuid_parse(uuid_text(uuid)) == Some(uuid)
}

/// Whether the bits are those of a random (version 4, RFC 4122) UUID.
pub open spec fn is_random_uuid(uuid: u128) -> bool {
    uuid & 0x0000_0000_0000_f000_c000_0000_0000_0000u128
        == 0x0000_0000_0000_4000_8000_0000_0000_0000u128
}

/// The text of an identifier holds hexadecimal digits and hyphens only.
pub proof fn uuid_text_is_plain(uuid: u128, at: int)
    requires
        0 <= at < 36,
    ensures
        uuid_text(uuid).len() == 36,
        uuid_text(uuid)[at] == '-' || hex_digits().contains(uuid_text(uuid)[at]),
{
}

/// Draws an identifier with `uuid::Uuid::new_v4`. Which one comes out is up
/// to the operating system's generator, without which `new_v4` panics; the
/// contract claims only that its version and variant bits are those of a
/// random UUID, which `new_v4` sets by masking.
#[verifier::external_body]
pub(crate) fn new_uuid() -> (uuid: u128)
    ensures
        is_random_uuid(uuid),
{
    ::uuid::Uuid::new_v4().as_u128()
}

/// Writes an identifier with `uuid::Uuid`'s `Display`, which writes a UUID
/// hyphenated and in lower case, byte by byte; the UUID is the one whose
/// bytes are the identifier's, the highest first. The contract claims that
/// the text is the identifier's digits so grouped, and that `parse_str`
/// reads the identifier back from it.
#[verifier::external_body]
pub(crate) fn write_uuid(uuid: u128) -> (text: String)
    ensures
        text@ == uuid_text(uuid),
        uuid_parse(text@) == Some(uuid),
{
    ::uuid::Uuid::from_u128(uuid).to_string()
}

/// Reads an identifier with `uuid::Uuid::parse_str`; `None` where it reports
/// an error. The contract names what is read.
#[verifier::external_body]
pub(crate) fn read_uuid(text: &str) -> (uuid: Option<u128>)
    ensures
        uuid == uuid_parse(text@),
{
    match ::uuid::Uuid::parse_str(text) {
        Ok(uuid) => Some(uuid.as_u128()),
        Err(_) => None,
    }
}

} // verus!
