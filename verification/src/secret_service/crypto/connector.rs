//! The crypto driver: serves the encryption and decryption steps of a flow
//! with the key of a session.

use vstd::prelude::*;
use vstd::slice::slice_to_vec;
use crate::secret::{bytes_of, Secret};
use crate::secret_service::crypto::algorithm::Algorithm;
use crate::secret_service::crypto::bigint::{be_value, value_of};
use crate::secret_service::crypto::cipher::{
    aes_cbc_encrypt,
    decrypt,
    decrypted,
    derive_shared,
    encrypt_with_iv,
    shared_key,
    AesKey,
    AES_BLOCK_LEN,
};
use crate::secret_service::crypto::error::Error;
use crate::secret_service::crypto::rng::random_bytes;
use crate::secret_service::flow::Flow;
use crate::secret_service::path::ObjectPath;
use crate::secret_service::session::Session;

verus! {

/// Holds what the crypto steps need of a session: its path and, under
/// Diffie-Hellman, the shared key.
#[derive(Debug)]
pub struct IoConnector {
    pub session_path: ObjectPath,
    pub shared_key: Option<AesKey>,
}

/// The bytes of a key that may be absent.
pub open spec fn key_bytes(key: Option<AesKey>) -> Option<Seq<u8>> {
    match key {
        Some(key) => Some(key@),
        None => None,
    }
}

impl IoConnector {
    /// What `new` makes of a session: no key without encryption; under
    /// Diffie-Hellman the key derived from our private exponent and the
    /// service's public key, or the error that says which of the two is
    /// missing.
    pub open spec fn shared_key_of(session: Session) -> Result<Option<Seq<u8>>, Error> {
        match session.encryption {
            Algorithm::Plain => Ok(None),
            Algorithm::Dh => match (session.output, session.keypair) {
                (None, _) => Err(Error::FindPubkeyError),
                (Some(_), None) => Err(Error::FindPrivkeyError),
                (Some(output), Some(keypair)) => Ok(
                    Some(shared_key(be_value(output@), value_of(keypair.private))),
                ),
            },
        }
    }

    /// Whether `connector` is what `new` makes of `session`: the driver with
    /// the key of the session, or the failure to find the key.
    pub open spec fn made_from(session: Session, connector: Result<Self, Error>) -> bool {
        match Self::shared_key_of(session) {
            Ok(key) => {
                &&& connector is Ok
                &&& key_bytes(connector->Ok_0.shared_key) == key
                &&& connector->Ok_0.session_path == session.path
            },
            Err(error) => {
                &&& connector is Err
                &&& connector->Err_0 == error
            },
        }
    }

    /// The crypto driver of a session.
    pub fn new(session: &Session) -> (connector: Result<Self, Error>)
        ensures
            Self::made_from(*session, connector),
    {
        let session_path = session.path.clone();
        match session.encryption {
            Algorithm::Plain => Ok(IoConnector { session_path, shared_key: None }),
            Algorithm::Dh => {
                let pubkey = match &session.output {
                    Some(output) => output,
                    None => { return Err(Error::FindPubkeyError); },
                };
                let keypair = match &session.keypair {
                    Some(keypair) => keypair,
                    None => { return Err(Error::FindPrivkeyError); },
                };
                match derive_shared(&keypair.private, pubkey.as_slice()) {
                    Ok(key) => Ok(IoConnector { session_path, shared_key: Some(key) }),
                    Err(error) => Err(error),
                }
            },
        }
    }

    /// What an encryption step makes of a flow under `key`. The flow held
    /// `secret` and `salt` before, and holds `sealed` and `drawn` after.
    /// Without a plaintext, and then without a key, the step fails, and the
    /// plaintext is gone from the flow in the second case. Else the flow
    /// holds a salt of one block and the ciphertext of the plaintext under
    /// the key and that salt.
    pub open spec fn encrypts(
        key: Option<AesKey>,
        secret: Option<Secret>,
        salt: Option<Vec<u8>>,
        sealed: Option<Secret>,
        drawn: Option<Vec<u8>>,
        outcome: Result<(), Error>,
    ) -> bool {
        match (secret, key) {
            (None, _) => {
                &&& outcome == Err::<(), Error>(Error::EncryptUndefinedSecretError)
                &&& sealed is None
                &&& drawn == salt
            },
            (Some(_), None) => {
                &&& outcome == Err::<(), Error>(Error::EncryptSecretMissingKeyError)
                &&& sealed is None
                &&& drawn == salt
            },
            (Some(plaintext), Some(key)) => {
                &&& outcome is Ok
                &&& drawn is Some
                &&& sealed is Some
                &&& drawn->0@.len() == AES_BLOCK_LEN
                &&& sealed->0@ == aes_cbc_encrypt(key@, drawn->0@, plaintext@)
            },
        }
    }

    /// What a decryption step makes of a flow under `key`. The flow held
    /// `secret` and `salt` before, and holds `opened` and `left` after.
    /// Without a ciphertext, and then without a key, the step fails, and
    /// the ciphertext is gone from the flow in the second case. Else the
    /// salt is gone, a missing salt counts as an empty one, and the flow
    /// holds the plaintext that the ciphertext decrypts to, or nothing
    /// where it does not decrypt, which is a failure.
    pub open spec fn decrypts(
        key: Option<AesKey>,
        secret: Option<Secret>,
        salt: Option<Vec<u8>>,
        opened: Option<Secret>,
        left: Option<Vec<u8>>,
        outcome: Result<(), Error>,
    ) -> bool {
        match (secret, key) {
            (None, _) => {
                &&& outcome == Err::<(), Error>(Error::DecryptUndefinedSecretError)
                &&& opened is None
                &&& left == salt
            },
            (Some(_), None) => {
                &&& outcome == Err::<(), Error>(Error::DecryptSecretMissingKeyError)
                &&& opened is None
                &&& left == salt
            },
            (Some(ciphertext), Some(key)) => {
                &&& left is None
                &&& bytes_of(opened) == decrypted(key@, salt_or_empty(salt), ciphertext@)
                &&& opened is Some ==> outcome is Ok
                &&& opened is None ==> outcome == Err::<(), Error>(
                    Error::DecryptSecretRustCryptoError,
                )
            },
        }
    }

    /// Serves an encryption step with the initialisation vector `salt`:
    /// takes the plaintext out of the flow and puts back its ciphertext and
    /// the salt.
    pub fn encrypt_with_salt<F: Flow>(&mut self, flow: &mut F, salt: [u8; 16]) -> (outcome: Result<(), Error>)
        ensures
            *final(self) == *old(self),
            final(flow).key() == old(flow).key(),
            Self::encrypts(
                old(self).shared_key,
                old(flow).secret(),
                old(flow).salt(),
                final(flow).secret(),
                final(flow).salt(),
                outcome,
            ),
            outcome is Ok ==> final(flow).salt()->0@ == salt@,
    {
        let secret = match flow.take_secret() {
            Some(secret) => secret,
            None => { return Err(Error::EncryptUndefinedSecretError); },
        };
        let key = match &self.shared_key {
            Some(key) => key,
            None => { return Err(Error::EncryptSecretMissingKeyError); },
        };
        let ciphertext = encrypt_with_iv(secret.expose_secret(), key, &salt);
        flow.put_secret(Secret::new(ciphertext));
        flow.put_salt(slice_to_vec(&salt));
        Ok(())
    }

    /// Serves an encryption step with a fresh random salt of one block:
    /// takes the plaintext out of the flow and puts back its ciphertext and
    /// the salt.
    pub fn encrypt<F: Flow>(&mut self, flow: &mut F) -> (outcome: Result<(), Error>)
        ensures
            *final(self) == *old(self),
            final(flow).key() == old(flow).key(),
            Self::encrypts(
                old(self).shared_key,
                old(flow).secret(),
                old(flow).salt(),
                final(flow).secret(),
                final(flow).salt(),
                outcome,
            ),
    {
        let salt = random_bytes::<16>();
        self.encrypt_with_salt(flow, salt)
    }

    /// Serves a decryption step: takes the ciphertext and the salt out of
    /// the flow and puts back the plaintext.
    ///
    /// What `encrypt` put is what `decrypt` finds: a ciphertext made of
    /// some plaintext under the same key and salt decrypts to that
    /// plaintext.
    pub fn decrypt<F: Flow>(&mut self, flow: &mut F) -> (outcome: Result<(), Error>)
        ensures
            *final(self) == *old(self),
            final(flow).key() == old(flow).key(),
            Self::decrypts(
                old(self).shared_key,
                old(flow).secret(),
                old(flow).salt(),
                final(flow).secret(),
                final(flow).salt(),
                outcome,
            ),
            forall|plaintext: Seq<u8>|
                Self::seals(old(self).shared_key, old(flow).salt(), plaintext, old(flow).secret())
                    ==> outcome is Ok && bytes_of(final(flow).secret()) == Some(plaintext),
    {
        let secret = match flow.take_secret() {
            Some(secret) => secret,
            None => { return Err(Error::DecryptUndefinedSecretError); },
        };
        let key = match &self.shared_key {
            Some(key) => key,
            None => { return Err(Error::DecryptSecretMissingKeyError); },
        };
        let salt = match flow.take_salt() {
            Some(salt) => salt,
            None => Vec::new(),
        };
        match decrypt(secret.expose_secret(), key, salt.as_slice()) {
            Ok(plaintext) => {
                flow.put_secret(Secret::new(plaintext));
                Ok(())
            },
            Err(error) => Err(error),
        }
    }
}

impl IoConnector {
    /// Whether `ciphertext` is what encryption makes of `plaintext` under
    /// `key` and `salt`, the salt being one block long.
    pub open spec fn seals(
        key: Option<AesKey>,
        salt: Option<Vec<u8>>,
        plaintext: Seq<u8>,
        ciphertext: Option<Secret>,
    ) -> bool {
        &&& key is Some
        &&& salt is Some
        &&& ciphertext is Some
        &&& salt->0@.len() == AES_BLOCK_LEN
        &&& ciphertext->0@ == aes_cbc_encrypt(key->0@, salt->0@, plaintext)
    }
}

/// The bytes of the salt in a flow, none where the flow has no salt.
pub open spec fn salt_or_empty(salt: Option<Vec<u8>>) -> Seq<u8> {
    match salt {
        Some(salt) => salt@,
        None => Seq::empty(),
    }
}

} // verus!
