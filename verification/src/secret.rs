//! Secrets: byte sequences that are wiped when dropped and that only an
//! explicit call exposes.

use vstd::prelude::*;
use secrecy::ExposeSecret;

verus! {

/// A secret byte sequence. It is kept in a `secrecy::SecretSlice<u8>`, which
/// zeroises the bytes on drop and prints a redaction in their place.
#[verifier::external_body]
#[derive(Debug)]
pub struct Secret {
    inner: secrecy::SecretSlice<u8>,
}

/// The bytes that a secret guards.
pub uninterp spec fn secret_bytes(secret: Secret) -> Seq<u8>;

impl View for Secret {
    type V = Seq<u8>;

    open spec fn view(&self) -> Seq<u8> {
        secret_bytes(*self)
    }
}

/// `secrecy`'s `From<Vec<u8>>` for `SecretSlice<u8>`: the secret guards
/// exactly the bytes it was made from.
#[verifier::external_body]
fn seal(bytes: Vec<u8>) -> (secret: Secret)
    ensures
        secret_bytes(secret) == bytes@,
{
    Secret { inner: secrecy::SecretSlice::from(bytes) }
}

/// `secrecy`'s `ExposeSecret::expose_secret` on a `SecretSlice<u8>`: the
/// slice handed out holds the guarded bytes.
#[verifier::external_body]
fn unseal(secret: &Secret) -> (bytes: &[u8])
    ensures
        bytes@ == secret_bytes(*secret),
{
    secret.inner.expose_secret()
}

/// `secrecy`'s `Clone` for `SecretSlice<u8>`: the copy guards the same bytes.
#[verifier::external_body]
fn duplicate(secret: &Secret) -> (copy: Secret)
    ensures
        secret_bytes(copy) == secret_bytes(*secret),
{
    Secret { inner: secret.inner.clone() }
}

impl Secret {
    /// Puts `bytes` under guard.
    pub fn new(bytes: Vec<u8>) -> (secret: Self)
        ensures
            secret@ == bytes@,
    {
        seal(bytes)
    }

    /// Hands out the guarded bytes. This is the one way to read them.
    pub fn expose_secret(&self) -> (bytes: &[u8])
        ensures
            bytes@ == self@,
    {
        unseal(self)
    }

    /// Whether the secret guards no byte at all.
    pub fn is_empty(&self) -> (empty: bool)
        ensures
            empty == (self@.len() == 0),
    {
        unseal(self).len() == 0
    }
}

impl Clone for Secret {
    fn clone(&self) -> (copy: Self)
        ensures
            copy@ == self@,
    {
        duplicate(self)
    }
}

/// The bytes of a secret that may be absent.
pub open spec fn bytes_of(secret: Option<Secret>) -> Option<Seq<u8>> {
    match secret {
        Some(secret) => Some(secret@),
        None => None,
    }
}

} // verus!
