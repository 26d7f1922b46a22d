//! Item identifiers: 128-bit UUIDs, made at random and written as text by the
//! `uuid` crate.

use vstd::prelude::*;

verus! {

/// The text that `uuid` writes for the UUID with this 128-bit value.
pub uninterp spec fn uuid_text(id: u128) -> Seq<char>;

/// The 128-bit value of the UUID that `uuid` reads from this text, where it
/// reads one.
pub uninterp spec fn uuid_value(text: Seq<char>) -> Option<u128>;

/// The bits that mark a UUID as a random one: version 4, RFC variant.
pub open spec fn is_random_uuid(id: u128) -> bool {
    id & 0xF000_C000_0000_0000_0000u128 == 0x4000_8000_0000_0000_0000u128
}

/// Whether the value carries the bits of a random UUID.
pub fn is_v4(id: u128) -> (random: bool)
    ensures
        random == is_random_uuid(id),
{
    id & 0xF000_C000_0000_0000_0000u128 == 0x4000_8000_0000_0000_0000u128
}

/// A random UUID is never the nil UUID.
pub proof fn lemma_random_uuid_not_nil(id: u128)
    requires
        is_random_uuid(id),
    ensures
        id != 0,
{
    assert(0u128 & 0xF000_C000_0000_0000_0000u128 != 0x4000_8000_0000_0000_0000u128) by (bit_vector);
}

/// Calls `uuid::Uuid::new_v4` and takes the 128-bit value of what it made.
/// Trusted: the value is random but for the version and variant bits, which
/// `new_v4` sets to those of a random UUID. Nothing more is claimed; that
/// two calls differ is likely, not certain.
#[verifier::external_body]
pub(crate) fn generate_id() -> (id: u128)
    ensures
        is_random_uuid(id),
{
    uuid::Uuid::new_v4().as_u128()
}

/// Calls `to_string` on the `uuid::Uuid` with this value. Trusted: the text
/// is the one that `uuid` writes for the value (lower-case hexadecimal in
/// five groups), named `uuid_text`.
#[verifier::external_body]
pub(crate) fn format_uuid(id: u128) -> (text: String)
    ensures
        text@ == uuid_text(id),
{
    uuid::Uuid::from_u128(id).to_string()
}

/// Calls `uuid::Uuid::parse_str`. Trusted: the result is the value of the
/// UUID that `uuid` reads from the text, named `uuid_value`, and `None` where
/// it rejects the text.
#[verifier::external_body]
pub(crate) fn parse_uuid(text: &str) -> (id: Option<u128>)
    ensures
        id == uuid_value(text@),
{
    match uuid::Uuid::parse_str(text) {
        Ok(parsed) => Some(parsed.as_u128()),
        Err(_) => None,
    }
}

} // verus!
