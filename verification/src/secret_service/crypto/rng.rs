//! Random bytes from the operating system.

use vstd::prelude::*;
use rand::Rng;

verus! {

/// `Rng::fill` of `rand`'s `OsRng` on a buffer of `N` bytes. Nothing is
/// claimed of the bytes: each call may hand out others.
#[verifier::external_body]
pub(crate) fn random_bytes<const N: usize>() -> (bytes: [u8; N]) {
    let mut bytes = [0u8; N];
    rand::rngs::OsRng.fill(&mut bytes[..]);
    bytes
}

} // verus!
