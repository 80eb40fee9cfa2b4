//! Identifiers of stored entities.
//!
//! An identifier is a UUID held as the 128-bit number that its sixteen bytes
//! spell in big-endian order, so that verified code can compare and key by it.

use vstd::prelude::*;

verus! {

/// Bits of an identifier that say which version and variant of UUID it is.
pub const VERSION_VARIANT_MASK: u128 = 0x0000_0000_0000_F000_C000_0000_0000_0000u128;

/// What those bits hold in a random (version 4, RFC variant) UUID.
pub const RANDOM_VERSION_VARIANT: u128 = 0x0000_0000_0000_4000_8000_0000_0000_0000u128;

/// Whether `id` carries the version and variant marks of a random UUID.
pub open spec fn is_random_uuid(id: u128) -> bool {
    id & VERSION_VARIANT_MASK == RANDOM_VERSION_VARIANT
}

/// The identifier that `uuid::Uuid::parse_str` reads from a text, if it
/// accepts the text.
pub uninterp spec fn parsed_uuid(text: Seq<char>) -> Option<u128>;

/// Draws a fresh identifier from `uuid::Uuid::new_v4`.
///
/// Trusted: the call masks the version and variant bits of sixteen random
/// bytes, so every outcome is a version 4 UUID of the RFC variant. Nothing is
/// claimed about which one, nor that it differs from any other. The call
/// panics where the operating system cannot supply random bytes.
#[verifier::external_body]
pub(crate) fn new_v4() -> (id: u128)
    ensures
        is_random_uuid(id),
{
    uuid::Uuid::new_v4().as_u128()
}

/// Reads an identifier with `uuid::Uuid::parse_str`.
///
/// Trusted: the result depends on the text alone, so it is named by
/// [`parsed_uuid`]; a rejected text gives `None`.
#[verifier::external_body]
pub(crate) fn parse_str(text: &str) -> (id: Option<u128>)
    ensures
        id == parsed_uuid(text@),
{
    match uuid::Uuid::parse_str(text) {
        Ok(uuid) => Some(uuid.as_u128()),
        Err(_) => None,
    }
}

} // verus!
