use vstd::prelude::*;

verus! {

/// Draws a fresh random identifier through `uuid::Uuid::new_v4`, as the
/// 128-bit value of the version-4 UUID (`Uuid::as_u128`).
///
/// The value is random: nothing is promised of it but the version nibble
/// (bits 76..80 hold 4) and the variant bits (bits 62..64 hold 0b10), which
/// `new_v4` sets on every outcome. In particular two draws are not promised
/// to differ. `new_v4` panics where the operating system gives no random
/// bytes, which no precondition can rule out.
#[verifier::external_body]
pub(crate) fn fresh_id() -> (id: u128)
    ensures
        is_fresh_id(id),
{
    uuid::Uuid::new_v4().as_u128()
}

/// The marks that every identifier from [`fresh_id`] carries.
pub open spec fn is_fresh_id(id: u128) -> bool {
    &&& (id >> 76u128) & 0xfu128 == 4u128
    &&& (id >> 62u128) & 0x3u128 == 2u128
}

} // verus!
