//! AES-128 in CBC mode with PKCS#7 padding, and the HKDF-SHA256 derivation
//! of the session key.
//!
//! The ciphers themselves are those of the `aes`, `cbc`, `hkdf` and `sha2`
//! crates. What they compute is not spelled out here: each result has a
//! name, and the contracts say which name a call returns.

use vstd::prelude::*;
use vstd::slice::slice_to_vec;
use aes::cipher::{BlockDecryptMut, BlockEncryptMut, KeyIvInit};
use aes::cipher::block_padding::Pkcs7;
use aes::cipher::generic_array::GenericArray;
use crate::secret_service::crypto::bigint::{be_value, value_of};
use crate::secret_service::crypto::dh::{
    lemma_shared_secret_symmetric,
    prepare_derive_shared,
    public_of,
    shared_ikm,
    Keypair,
};
use crate::secret_service::crypto::error::Error;
use crate::secret_service::crypto::rng::random_bytes;

verus! {

/// An AES-128 key.
pub type AesKey = [u8; 16];

/// The length of an AES block, and so of an initialisation vector.
pub const AES_BLOCK_LEN: usize = 16;

/// The longest key that HKDF-SHA256 hands out: 255 blocks of 32 bytes.
pub const HKDF_MAX_LEN: usize = 8160;

/// `block_padding::UnpadError`: the report that a padding is broken. It
/// holds nothing.
#[verifier::external_type_specification]
#[verifier::external_body]
pub struct ExUnpadError(block_padding::UnpadError);

/// `hkdf::InvalidLength`: the report that too long a key was asked for. It
/// holds nothing.
#[verifier::external_type_specification]
#[verifier::external_body]
pub struct ExInvalidLength(hkdf::InvalidLength);

/// The ciphertext of `data` under AES-128-CBC with PKCS#7 padding.
pub uninterp spec fn aes_cbc_encrypt(key: Seq<u8>, iv: Seq<u8>, data: Seq<u8>) -> Seq<u8>;

/// The plaintext of `data` under AES-128-CBC with PKCS#7 padding, where
/// `data` is a whole number of blocks that end in a valid padding.
pub uninterp spec fn aes_cbc_decrypt(key: Seq<u8>, iv: Seq<u8>, data: Seq<u8>) -> Option<Seq<u8>>;

/// The first `len` bytes that HKDF-SHA256 derives from `ikm` with the given
/// salt and info.
pub uninterp spec fn hkdf_sha256(salt: Option<Seq<u8>>, ikm: Seq<u8>, info: Seq<u8>, len: nat) -> Seq<u8>;

/// The bytes of a salt that may be absent.
pub open spec fn salt_bytes(salt: Option<&[u8]>) -> Option<Seq<u8>> {
    match salt {
        Some(salt) => Some(salt@),
        None => None,
    }
}

/// The length of the ciphertext of `len` bytes: the padding fills the last
/// block, and adds a whole block where `len` is a multiple of 16.
pub open spec fn padded_len(len: nat) -> nat {
    (len / 16 + 1) * 16
}

/// What decryption returns: the plaintext that the cipher finds, or the
/// padding error; the latter also for an initialisation vector of another
/// length than one block.
pub open spec fn decrypted(key: Seq<u8>, iv: Seq<u8>, data: Seq<u8>) -> Option<Seq<u8>> {
    if iv.len() == AES_BLOCK_LEN {
        aes_cbc_decrypt(key, iv, data)
    } else {
        None
    }
}

/// The session key that HKDF-SHA256 derives, with no salt and no info, from
/// the keying material that the two parties share.
pub open spec fn shared_key(peer_public: nat, private: nat) -> Seq<u8> {
    hkdf_sha256(None, shared_ikm(peer_public, private), Seq::empty(), AES_BLOCK_LEN as nat)
}

/// `cbc::Encryptor::<aes::Aes128>::new` and
/// `BlockEncryptMut::encrypt_padded_vec_mut::<Pkcs7>`: the ciphertext, which
/// is the plaintext's length rounded up to the next block boundary beyond
/// it.
#[verifier::external_body]
fn cbc_encrypt(data: &[u8], key: &AesKey, iv: &[u8; 16]) -> (ciphertext: Vec<u8>)
    ensures
        ciphertext@ == aes_cbc_encrypt(key@, iv@, data@),
        ciphertext@.len() == padded_len(data@.len()),
{
    let key = GenericArray::from_slice(key);
    let iv = GenericArray::from_slice(iv);
    cbc::Encryptor::<aes::Aes128>::new(key, iv).encrypt_padded_vec_mut::<Pkcs7>(data)
}

/// `cbc::Decryptor::<aes::Aes128>::new` and
/// `BlockDecryptMut::decrypt_padded_vec_mut::<Pkcs7>`: the plaintext, or the
/// padding error where the input is empty, is no whole number of blocks or
/// does not end in a valid padding. A valid padding is 1 to 16 bytes long,
/// and the plaintext is the data without it. The last clause says that decryption
/// undoes encryption under the same key and initialisation vector: the
/// decryptor is the inverse of the encryptor, and `block_padding` declares
/// PKCS#7 a reversible padding. This is believed of the cipher, not proved.
/// `GenericArray::from_slice` panics on an initialisation vector that is
/// not one block long.
#[verifier::external_body]
fn cbc_decrypt(data: &[u8], key: &AesKey, iv: &[u8]) -> (plaintext: Result<Vec<u8>, block_padding::UnpadError>)
    requires
        iv@.len() == AES_BLOCK_LEN,
    ensures
        match plaintext {
            Ok(plain) => aes_cbc_decrypt(key@, iv@, data@) == Some(plain@),
            Err(_) => aes_cbc_decrypt(key@, iv@, data@) is None,
        },
        data@.len() == 0 || data@.len() % 16 != 0 ==> plaintext is Err,
        plaintext matches Ok(plain) ==> 1 <= data@.len() - plain@.len() <= 16,
        (forall|message: Seq<u8>|
            data@ == #[trigger] aes_cbc_encrypt(key@, iv@, message) ==> plaintext is Ok
                && plaintext->Ok_0@ == message),
{
    let key = GenericArray::from_slice(key);
    let iv = GenericArray::from_slice(iv);
    cbc::Decryptor::<aes::Aes128>::new(key, iv).decrypt_padded_vec_mut::<Pkcs7>(data)
}

/// `hkdf::Hkdf::<sha2::Sha256>::extract` and `Hkdf::expand`: fills `okm`
/// with derived bytes, or refuses an `okm` of more than 255 hash lengths and
/// leaves it as it was.
#[verifier::external_body]
fn hkdf_extract_expand(ikm: &[u8], salt: Option<&[u8]>, info: &[u8], okm: &mut [u8]) -> (outcome: Result<(), hkdf::InvalidLength>)
    ensures
        outcome is Ok <==> old(okm)@.len() <= HKDF_MAX_LEN,
        outcome is Ok ==> final(okm)@ == hkdf_sha256(
            salt_bytes(salt),
            ikm@,
            info@,
            old(okm)@.len(),
        ),
        outcome is Err ==> final(okm)@ == old(okm)@,
        final(okm)@.len() == old(okm)@.len(),
{
    let (_, hk) = hkdf::Hkdf::<sha2::Sha256>::extract(salt, ikm);
    hk.expand(info, okm)
}

/// Encrypts `data` under `key` and the initialisation vector `iv`.
pub fn encrypt_with_iv(data: &[u8], key: &AesKey, iv: &[u8; 16]) -> (ciphertext: Vec<u8>)
    ensures
        ciphertext@ == aes_cbc_encrypt(key@, iv@, data@),
        ciphertext@.len() == padded_len(data@.len()),
        ciphertext@.len() > data@.len(),
        ciphertext@.len() % 16 == 0,
{
    proof {
        lemma_padded_len(data@.len());
    }
    cbc_encrypt(data, key, iv)
}

/// Encrypts `data` under `key` and a fresh random initialisation vector.
/// Returns the ciphertext and the vector.
pub fn encrypt(data: &[u8], key: &AesKey) -> (sealed: (Vec<u8>, Vec<u8>))
    ensures
        sealed.1@.len() == AES_BLOCK_LEN,
        sealed.0@ == aes_cbc_encrypt(key@, sealed.1@, data@),
        sealed.0@.len() == padded_len(data@.len()),
{
    let aes_iv = random_bytes::<16>();
    let output = encrypt_with_iv(data, key, &aes_iv);
    (output, slice_to_vec(&aes_iv))
}

/// Decrypts `encrypted_data` under `key` and `iv`. Fails where `iv` is not
/// one block long, and where the data is not the ciphertext of anything:
/// empty, no whole number of blocks, or ending in a broken padding. A
/// plaintext is the data without its padding of 1 to 16 bytes.
pub fn decrypt(encrypted_data: &[u8], key: &AesKey, iv: &[u8]) -> (plaintext: Result<Vec<u8>, Error>)
    ensures
        match plaintext {
            Ok(plain) => decrypted(key@, iv@, encrypted_data@) == Some(plain@),
            Err(error) => decrypted(key@, iv@, encrypted_data@) is None && error
                == Error::DecryptSecretRustCryptoError,
        },
        iv@.len() != AES_BLOCK_LEN ==> plaintext is Err,
        encrypted_data@.len() == 0 || encrypted_data@.len() % 16 != 0 ==> plaintext is Err,
        plaintext matches Ok(plain) ==> {
            &&& iv@.len() == AES_BLOCK_LEN
            &&& encrypted_data@.len() > 0
            &&& encrypted_data@.len() % 16 == 0
            &&& 1 <= encrypted_data@.len() - plain@.len() <= 16
        },
        forall|message: Seq<u8>|
            iv@.len() == AES_BLOCK_LEN && encrypted_data@ == #[trigger] aes_cbc_encrypt(
                key@,
                iv@,
                message,
            ) ==> (plaintext matches Ok(plain) && plain@ == message),
{
    if iv.len() != AES_BLOCK_LEN {
        return Err(Error::DecryptSecretRustCryptoError);
    }
    match cbc_decrypt(encrypted_data, key, iv) {
        Ok(plaintext) => Ok(plaintext),
        Err(_) => Err(Error::DecryptSecretRustCryptoError),
    }
}

/// Fills `okm` with the key that HKDF-SHA256 derives from `ikm` and `salt`,
/// with no info. Fails, and leaves `okm` as it was, where more than 8160
/// bytes are asked for.
pub fn hkdf(ikm: Vec<u8>, salt: Option<&[u8]>, okm: &mut [u8]) -> (outcome: Result<(), Error>)
    ensures
        final(okm)@.len() == old(okm)@.len(),
        old(okm)@.len() <= HKDF_MAX_LEN ==> outcome is Ok && final(okm)@ == hkdf_sha256(
            salt_bytes(salt),
            ikm@,
            Seq::empty(),
            old(okm)@.len(),
        ),
        old(okm)@.len() > HKDF_MAX_LEN ==> outcome == Err::<(), Error>(
            Error::DeriveSharedKeyRustCryptoError,
        ) && final(okm)@ == old(okm)@,
{
    let info: [u8; 0] = [];
    assert(info@ =~= Seq::<u8>::empty());
    match hkdf_extract_expand(ikm.as_slice(), salt, &info, okm) {
        Ok(()) => Ok(()),
        Err(_) => Err(Error::DeriveSharedKeyRustCryptoError),
    }
}

/// Derives the session key from our private exponent and the public key
/// that the peer sent, most significant byte first. The key has 16 bytes,
/// which the derivation never refuses: the result is always `Ok`.
pub fn derive_shared(private: &num::BigUint, peer_public: &[u8]) -> (key: Result<AesKey, Error>)
    ensures
        key matches Ok(key) && key@ == shared_key(be_value(peer_public@), value_of(*private)),
{
    let ikm = prepare_derive_shared(private, peer_public);
    let mut okm: AesKey = [0u8; 16];
    match hkdf(ikm, None, &mut okm) {
        Ok(()) => Ok(okm),
        Err(error) => Err(error),
    }
}

impl Keypair {
    /// The session key that this keypair shares with the peer whose public
    /// key is `server_public_key_bytes`, most significant byte first.
    pub fn derive_shared(&self, server_public_key_bytes: &[u8]) -> (key: AesKey)
        ensures
            key@ == shared_key(be_value(server_public_key_bytes@), value_of(self.private)),
    {
        let ikm = prepare_derive_shared(&self.private, server_public_key_bytes);
        let mut okm: AesKey = [0u8; 16];
        // A key of 16 bytes is never refused.
        let _ = hkdf(ikm, None, &mut okm);
        okm
    }
}

/// Both sides of an exchange derive the same session key.
pub proof fn lemma_shared_key_symmetric(ours: nat, theirs: nat)
    ensures
        shared_key(public_of(theirs), ours) == shared_key(public_of(ours), theirs),
{
    lemma_shared_secret_symmetric(ours, theirs);
}

proof fn lemma_padded_len(len: nat)
    ensures
        padded_len(len) > len,
        padded_len(len) % 16 == 0,
        padded_len(len) <= len + 16,
{
    assert(padded_len(len) > len && padded_len(len) % 16 == 0 && padded_len(len) <= len + 16)
        by (nonlinear_arith)
        requires
            padded_len(len) == (len / 16 + 1) * 16,
    ;
}

} // verus!
