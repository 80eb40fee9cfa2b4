//! Timestamps.

use vstd::prelude::*;

verus! {

/// `std::time::SystemTime`, carried through the library as an opaque value.
#[verifier::external_type_specification]
#[verifier::external_body]
pub struct ExSystemTime(std::time::SystemTime);

/// Reads the clock with `std::time::SystemTime::now`.
///
/// Trusted: nothing is claimed about the instant that comes back.
#[verifier::external_body]
pub(crate) fn now() -> std::time::SystemTime {
    std::time::SystemTime::now()
}

} // verus!
