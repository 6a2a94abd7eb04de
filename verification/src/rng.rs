//! The source of random bytes.

use vstd::prelude::*;

verus! {

/// Draws a byte with `rand::random::<u8>()`, which takes it from the `rand`
/// crate's thread-local generator, seeded by the operating system. Nothing
/// is claimed of the byte: every value can come back, and two calls need
/// not agree. The generator panics if the operating system cannot seed it.
#[verifier::external_body]
pub(crate) fn random_byte() -> (byte: u8)
{
    rand::random::<u8>()
}

} // verus!
