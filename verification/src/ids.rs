//! Identifiers. The library holds a UUID as its 128-bit value; generating,
//! printing and parsing UUIDs is done by the `uuid` crate.

use vstd::prelude::*;

verus! {

#[verifier::external_type_specification]
#[verifier::external_body]
pub struct ExUuidError(uuid::Error);

/// The bits that fix a UUID's version nibble and variant field.
pub const UUID_VERSION_VARIANT_MASK: u128 = 0xF000_C000_0000_0000_0000u128;

/// The values of those bits in a random (version 4, RFC 4122 variant) UUID.
pub const UUID_V4_BITS: u128 = 0x4000_8000_0000_0000_0000u128;

/// A random version-4 UUID value carries the version-4 and RFC 4122 variant bits.
pub open spec fn is_random_uuid(id: u128) -> bool {
    id & UUID_VERSION_VARIANT_MASK == UUID_V4_BITS
}

/// A random UUID is never the nil UUID.
pub proof fn lemma_random_uuid_not_nil(id: u128)
    requires
        is_random_uuid(id),
    ensures
        id != 0,
{
    assert(id & 0xF000_C000_0000_0000_0000u128 == 0x4000_8000_0000_0000_0000u128 ==> id != 0)
        by (bit_vector);
}

/// The hyphenated lower-case text that `uuid::Uuid`'s `Display` writes for a UUID value.
pub uninterp spec fn uuid_text(id: u128) -> Seq<char>;

/// What `uuid::Uuid::parse_str` accepts and returns, as a UUID value.
pub uninterp spec fn uuid_parse(text: Seq<char>) -> Option<u128>;

/// Calls `uuid::Uuid::new_v4`. Trusted: the value has the version-4 and
/// variant bits set (the crate masks them into the random bits); nothing is
/// claimed of the other bits, which are random.
#[verifier::external_body]
pub(crate) fn random_uuid() -> (id: u128)
    ensures
        is_random_uuid(id),
{
    uuid::Uuid::new_v4().as_u128()
}

/// Calls `Display` of `uuid::Uuid` (through `to_string`). Trusted: the text
/// is `uuid_text(id)`, and `Uuid::parse_str` reads the hyphenated form back
/// to the same value.
#[verifier::external_body]
pub(crate) fn format_uuid(id: u128) -> (text: String)
    ensures
        text@ == uuid_text(id),
        uuid_parse(text@) == Some(id),
{
    uuid::Uuid::from_u128(id).to_string()
}

/// Calls `uuid::Uuid::parse_str`. Trusted: it succeeds exactly when
/// `uuid_parse` gives a value, and then gives that value.
#[verifier::external_body]
pub(crate) fn parse_uuid(text: &str) -> (parsed: Result<u128, uuid::Error>)
    ensures
        match parsed {
            Ok(id) => uuid_parse(text@) == Some(id),
            Err(_) => uuid_parse(text@) is None,
        },
{
    match uuid::Uuid::parse_str(text) {
        Ok(id) => Ok(id.as_u128()),
        Err(error) => Err(error),
    }
}

} // verus!
