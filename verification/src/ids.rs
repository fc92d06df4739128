//! Fresh identifiers, drawn as random version-4 UUIDs.
use vstd::prelude::*;

verus! {

/// Holds of the 128-bit value of every version-4 UUID of the RFC 4122
/// variant: the version nibble is 4 and the two variant bits are `10`.
pub open spec fn is_v4_uuid(value: u128) -> bool {
    &&& (value >> 76u128) & 0xfu128 == 4
    &&& (value >> 62u128) & 0x3u128 == 2
}

/// Draws a random identifier with `uuid::Uuid::new_v4` and hands back its
/// 128-bit value (`Uuid::as_u128`). The value rests on chance, so nothing
/// ties it to earlier calls; the source of `new_v4` masks the random bits so
/// that every outcome carries the version-4 and variant bits, which the
/// contract states.
#[verifier::external_body]
pub(crate) fn new_v4_id() -> (id: u128)
    ensures
        is_v4_uuid(id),
{
    uuid::Uuid::new_v4().as_u128()
}

} // verus!
