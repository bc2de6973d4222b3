//! Fresh identifiers for rules.

use vstd::prelude::*;

verus! {

/// Whether `id` has the marks of a random (version 4) UUID: version nibble
/// (bits 76..80) 4 and variant bits (bits 62..64) `10`.
pub open spec fn is_v4_id(id: u128) -> bool {
    (id >> 76u128) & 0xfu128 == 4 && (id >> 62u128) & 0x3u128 == 2
}

/// Calls `uuid::Uuid::new_v4` and returns the identifier as its 128-bit value.
/// The value is random; the contract claims only what `new_v4` forces on every
/// outcome: the version nibble (bits 76..80) is 4 and the two variant bits
/// (bits 62..64) are `10`.
#[verifier::external_body]
pub(crate) fn fresh_id() -> (r: u128)
    ensures
        is_v4_id(r),
{
    uuid::Uuid::new_v4().as_u128()
}

} // verus!
