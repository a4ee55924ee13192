//! Transport encryption for Secret Service sessions.

use vstd::prelude::*;

pub mod algorithm;
pub mod bigint;
pub mod cipher;
pub mod connector;
pub mod dh;
pub mod error;
pub mod rng;

verus! {

/// The work on a secret that a flow can ask of the crypto driver.
#[derive(Clone, Copy, Debug, PartialEq, Eq, Structural)]
pub enum Io {
    /// Replace the plaintext in the flow by its ciphertext, and put the salt.
    Encrypt,
    /// Replace the ciphertext in the flow by its plaintext.
    Decrypt,
}

} // verus!
