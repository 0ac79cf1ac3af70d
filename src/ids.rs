use vstd::prelude::*;

verus! {

/// Draws a fresh random identifier.
///
/// Relies on `uuid::Uuid::new_v4`, which fills a version-4 UUID from the
/// operating system's random source; the identifier is its 128-bit value.
/// Nothing is promised of the value but the version nibble.
#[verifier::external_body]
pub(crate) fn random_id() -> (r: u128)
    ensures
        (r >> 76u128) & 0xfu128 == 4,
{
    uuid::Uuid::new_v4().as_u128()
}

} // verus!
