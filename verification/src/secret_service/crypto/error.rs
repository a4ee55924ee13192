//! What can go wrong while a secret is encrypted or decrypted.

use vstd::prelude::*;

verus! {

/// The failures of the transport encryption.
#[derive(Clone, Copy, Debug, PartialEq, Eq, Structural)]
pub enum Error {
    /// The session holds no public key of the service.
    FindPubkeyError,
    /// The session holds no private key of ours.
    FindPrivkeyError,
    /// There is no plaintext to encrypt.
    EncryptUndefinedSecretError,
    /// There is no shared key to encrypt with.
    EncryptSecretMissingKeyError,
    /// There is no ciphertext to decrypt.
    DecryptUndefinedSecretError,
    /// There is no shared key to decrypt with.
    DecryptSecretMissingKeyError,
    /// The ciphertext does not decrypt to a padded plaintext.
    DecryptSecretRustCryptoError,
    /// The key derivation refused the requested key length.
    DeriveSharedKeyRustCryptoError,
}

} // verus!
