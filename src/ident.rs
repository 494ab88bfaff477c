use vstd::prelude::*;

verus! {

/// Bits that `uuid::Uuid::new_v4` fixes in every identifier it returns: the
/// version nibble and the two variant bits.
pub const VERSION_VARIANT_MASK: u128 = 0x0000_0000_0000_F000_C000_0000_0000_0000;

/// The values of those bits in a random (version 4, RFC 4122 variant) identifier.
pub const VERSION_VARIANT_BITS: u128 = 0x0000_0000_0000_4000_8000_0000_0000_0000;

/// Relies on uuid::Uuid::new_v4 and Uuid::as_u128: a fresh random identifier,
/// as its 128-bit big-endian value. Only the version and variant bits are fixed.
#[verifier::external_body]
pub(crate) fn new_random_id() -> (r: u128)
    ensures
        r & VERSION_VARIANT_MASK == VERSION_VARIANT_BITS,
{
    uuid::Uuid::new_v4().as_u128()
}

} // verus!
