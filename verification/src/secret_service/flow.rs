//! The flows that are run against a Secret Service, and what a driver may
//! do to a flow.

use vstd::prelude::*;
use vstd::string::StringExecFns;
use crate::flows::Io as EntryIo;
use crate::secret::{bytes_of, Secret};
use crate::state::salt_of;
use crate::secret_service::crypto::algorithm::Algorithm;
use crate::secret_service::crypto::Io as CryptoIo;
use crate::secret_service::Io;

verus! {

/// What a driver may do to a flow: learn the key of the entry, and take or
/// put the secret and the salt. No operation touches what it does not name.
pub trait Flow {
    /// The key of the entry that the flow is about.
    spec fn key(&self) -> Seq<char>;

    /// The secret at hand: a plaintext or a ciphertext, as the step has it.
    spec fn secret(&self) -> Option<Secret>;

    /// The salt at hand: the initialisation vector of the ciphertext.
    spec fn salt(&self) -> Option<Vec<u8>>;

    fn get_key(&self) -> (key: &str)
        ensures
            key@ == self.key(),
    ;

    fn take_secret(&mut self) -> (secret: Option<Secret>)
        ensures
            secret == old(self).secret(),
            final(self).secret() is None,
            final(self).salt() == old(self).salt(),
            final(self).key() == old(self).key(),
    ;

    fn take_salt(&mut self) -> (salt: Option<Vec<u8>>)
        ensures
            salt == old(self).salt(),
            final(self).salt() is None,
            final(self).secret() == old(self).secret(),
            final(self).key() == old(self).key(),
    ;

    fn put_secret(&mut self, secret: Secret)
        ensures
            final(self).secret() == Some(secret),
            final(self).salt() == old(self).salt(),
            final(self).key() == old(self).key(),
    ;

    fn put_salt(&mut self, salt: Vec<u8>)
        ensures
            final(self).salt() == Some(salt),
            final(self).secret() == old(self).secret(),
            final(self).key() == old(self).key(),
    ;
}

/// Where a read stands.
#[derive(Clone, Copy, Debug, PartialEq, Eq, Structural)]
pub enum ReadEntryState {
    /// The entry is to be read.
    Read,
    /// What was read is to be decrypted.
    Decrypt,
}

/// Reads the secret of an entry from a Secret Service.
#[derive(Debug)]
pub struct ReadEntryFlow {
    pub state: Option<ReadEntryState>,
    pub key: String,
    pub encryption: Algorithm,
    pub secret: Option<Secret>,
    pub salt: Option<Vec<u8>>,
}

impl ReadEntryFlow {
    /// The steps that are left, in the order in which `next` hands them
    /// out: the read, and under Diffie-Hellman the decryption after it.
    pub open spec fn steps(self) -> Seq<Io> {
        match self.state {
            Some(ReadEntryState::Read) => if self.encryption == Algorithm::Dh {
                seq![Io::Entry(EntryIo::Read), Io::Crypto(CryptoIo::Decrypt)]
            } else {
                seq![Io::Entry(EntryIo::Read)]
            },
            Some(ReadEntryState::Decrypt) => seq![Io::Crypto(CryptoIo::Decrypt)],
            None => Seq::empty(),
        }
    }

    /// The flow that reads the entry `key`, with every step ahead of it.
    pub fn new(key: &str, encryption: Algorithm) -> (flow: Self)
        ensures
            flow.key@ == key@,
            flow.encryption == encryption,
            flow.secret is None,
            flow.salt is None,
            flow.state == Some(ReadEntryState::Read),
    {
        Self {
            state: Some(ReadEntryState::Read),
            key: String::from_str(key),
            encryption,
            secret: None,
            salt: None,
        }
    }

    /// Hands out the next step, or nothing once all are handed out. The
    /// secret, the salt and the key stay as they are.
    pub fn next(&mut self) -> (step: Option<Io>)
        ensures
            old(self).steps().len() == 0 ==> step is None && *final(self) == *old(self),
            old(self).steps().len() > 0 ==> step == Some(old(self).steps()[0])
                && final(self).steps() == old(self).steps().skip(1),
            final(self).key == old(self).key,
            final(self).encryption == old(self).encryption,
            final(self).secret == old(self).secret,
            final(self).salt == old(self).salt,
    {
        match self.state.take() {
            None => None,
            Some(ReadEntryState::Read) => {
                match self.encryption {
                    Algorithm::Plain => {},
                    Algorithm::Dh => {
                        self.state = Some(ReadEntryState::Decrypt);
                    },
                }
                assert(self.steps() =~= old(self).steps().skip(1));
                Some(Io::Entry(EntryIo::Read))
            },
            Some(ReadEntryState::Decrypt) => {
                assert(self.steps() =~= old(self).steps().skip(1));
                Some(Io::Crypto(CryptoIo::Decrypt))
            },
        }
    }
}

impl Flow for ReadEntryFlow {
    open spec fn key(&self) -> Seq<char> {
        self.key@
    }

    open spec fn secret(&self) -> Option<Secret> {
        self.secret
    }

    open spec fn salt(&self) -> Option<Vec<u8>> {
        self.salt
    }

    fn get_key(&self) -> (key: &str) {
        self.key.as_str()
    }

    fn take_secret(&mut self) -> (secret: Option<Secret>)
        ensures
            final(self).state == old(self).state,
            final(self).encryption == old(self).encryption,
            final(self).key == old(self).key,
    {
        self.secret.take()
    }

    fn take_salt(&mut self) -> (salt: Option<Vec<u8>>)
        ensures
            final(self).state == old(self).state,
            final(self).encryption == old(self).encryption,
            final(self).key == old(self).key,
    {
        self.salt.take()
    }

    fn put_secret(&mut self, secret: Secret)
        ensures
            final(self).state == old(self).state,
            final(self).encryption == old(self).encryption,
            final(self).key == old(self).key,
    {
        self.secret = Some(secret);
    }

    fn put_salt(&mut self, salt: Vec<u8>)
        ensures
            final(self).state == old(self).state,
            final(self).encryption == old(self).encryption,
            final(self).key == old(self).key,
    {
        self.salt = Some(salt);
    }
}

impl Clone for ReadEntryFlow {
    fn clone(&self) -> (copy: Self)
        ensures
            copy.state == self.state,
            copy.key == self.key,
            copy.encryption == self.encryption,
            bytes_of(copy.secret) == bytes_of(self.secret),
            salt_of(copy.salt) == salt_of(self.salt),
    {
        let secret = match &self.secret {
            Some(secret) => Some(secret.clone()),
            None => None,
        };
        let salt = match &self.salt {
            Some(salt) => Some(salt.clone()),
            None => None,
        };
        ReadEntryFlow { state: self.state, key: self.key.clone(), encryption: self.encryption, secret, salt }
    }
}

/// Where a write stands.
#[derive(Clone, Copy, Debug, PartialEq, Eq, Structural)]
pub enum WriteEntryState {
    /// The secret is to be encrypted.
    Encrypt,
    /// The secret is to be written into the entry.
    Write,
}

/// Saves a secret into an entry of a Secret Service.
#[derive(Debug)]
pub struct WriteEntryFlow {
    pub state: Option<WriteEntryState>,
    pub key: String,
    pub encryption: Algorithm,
    pub secret: Option<Secret>,
    pub salt: Option<Vec<u8>>,
}

impl WriteEntryFlow {
    /// The steps that are left, in the order in which `next` hands them
    /// out: under Diffie-Hellman the encryption, then the write.
    pub open spec fn steps(self) -> Seq<Io> {
        match self.state {
            Some(WriteEntryState::Encrypt) => seq![
                Io::Crypto(CryptoIo::Encrypt),
                Io::Entry(EntryIo::Write),
            ],
            Some(WriteEntryState::Write) => seq![Io::Entry(EntryIo::Write)],
            None => Seq::empty(),
        }
    }

    /// The flow that saves `secret` into the entry `key`, with every step
    /// ahead of it.
    pub fn new(key: &str, secret: Secret, encryption: Algorithm) -> (flow: Self)
        ensures
            flow.key@ == key@,
            flow.encryption == encryption,
            flow.secret == Some(secret),
            flow.salt is None,
            flow.state == Some(
                if encryption == Algorithm::Dh {
                    WriteEntryState::Encrypt
                } else {
                    WriteEntryState::Write
                },
            ),
    {
        let state = match encryption {
            Algorithm::Plain => WriteEntryState::Write,
            Algorithm::Dh => WriteEntryState::Encrypt,
        };
        Self {
            state: Some(state),
            key: String::from_str(key),
            encryption,
            secret: Some(secret),
            salt: None,
        }
    }

    /// Hands out the next step, or nothing once all are handed out. The
    /// secret, the salt and the key stay as they are.
    pub fn next(&mut self) -> (step: Option<Io>)
        ensures
            old(self).steps().len() == 0 ==> step is None && *final(self) == *old(self),
            old(self).steps().len() > 0 ==> step == Some(old(self).steps()[0])
                && final(self).steps() == old(self).steps().skip(1),
            final(self).key == old(self).key,
            final(self).encryption == old(self).encryption,
            final(self).secret == old(self).secret,
            final(self).salt == old(self).salt,
    {
        match self.state.take() {
            None => None,
            Some(WriteEntryState::Encrypt) => {
                self.state = Some(WriteEntryState::Write);
                assert(self.steps() =~= old(self).steps().skip(1));
                Some(Io::Crypto(CryptoIo::Encrypt))
            },
            Some(WriteEntryState::Write) => {
                assert(self.steps() =~= old(self).steps().skip(1));
                Some(Io::Entry(EntryIo::Write))
            },
        }
    }
}

impl Flow for WriteEntryFlow {
    open spec fn key(&self) -> Seq<char> {
        self.key@
    }

    open spec fn secret(&self) -> Option<Secret> {
        self.secret
    }

    open spec fn salt(&self) -> Option<Vec<u8>> {
        self.salt
    }

    fn get_key(&self) -> (key: &str) {
        self.key.as_str()
    }

    fn take_secret(&mut self) -> (secret: Option<Secret>)
        ensures
            final(self).state == old(self).state,
            final(self).encryption == old(self).encryption,
            final(self).key == old(self).key,
    {
        self.secret.take()
    }

    fn take_salt(&mut self) -> (salt: Option<Vec<u8>>)
        ensures
            final(self).state == old(self).state,
            final(self).encryption == old(self).encryption,
            final(self).key == old(self).key,
    {
        self.salt.take()
    }

    fn put_secret(&mut self, secret: Secret)
        ensures
            final(self).state == old(self).state,
            final(self).encryption == old(self).encryption,
            final(self).key == old(self).key,
    {
        self.secret = Some(secret);
    }

    fn put_salt(&mut self, salt: Vec<u8>)
        ensures
            final(self).state == old(self).state,
            final(self).encryption == old(self).encryption,
            final(self).key == old(self).key,
    {
        self.salt = Some(salt);
    }
}

impl Clone for WriteEntryFlow {
    fn clone(&self) -> (copy: Self)
        ensures
            copy.state == self.state,
            copy.key == self.key,
            copy.encryption == self.encryption,
            bytes_of(copy.secret) == bytes_of(self.secret),
            salt_of(copy.salt) == salt_of(self.salt),
    {
        let secret = match &self.secret {
            Some(secret) => Some(secret.clone()),
            None => None,
        };
        let salt = match &self.salt {
            Some(salt) => Some(salt.clone()),
            None => None,
        };
        WriteEntryFlow { state: self.state, key: self.key.clone(), encryption: self.encryption, secret, salt }
    }
}

/// Deletes an entry of a Secret Service.
#[derive(Debug)]
pub struct DeleteEntryFlow {
    pub delete: Option<EntryIo>,
    pub key: String,
    pub secret: Option<Secret>,
    pub salt: Option<Vec<u8>>,
}

impl DeleteEntryFlow {
    /// The steps that are left: the deletion, until it is handed out.
    pub open spec fn steps(self) -> Seq<Io> {
        match self.delete {
            Some(io) => seq![Io::Entry(io)],
            None => Seq::empty(),
        }
    }

    /// The flow that deletes the entry `key`.
    pub fn new(key: &str) -> (flow: Self)
        ensures
            flow.key@ == key@,
            flow.delete == Some(EntryIo::Delete),
            flow.secret is None,
            flow.salt is None,
    {
        Self { delete: Some(EntryIo::Delete), key: String::from_str(key), secret: None, salt: None }
    }

    /// Hands out the next step, or nothing once all are handed out.
    pub fn next(&mut self) -> (step: Option<Io>)
        ensures
            old(self).steps().len() == 0 ==> step is None && *final(self) == *old(self),
            old(self).steps().len() > 0 ==> step == Some(old(self).steps()[0])
                && final(self).steps() == old(self).steps().skip(1),
            final(self).key == old(self).key,
            final(self).secret == old(self).secret,
            final(self).salt == old(self).salt,
    {
        match self.delete.take() {
            None => None,
            Some(io) => {
                assert(self.steps() =~= old(self).steps().skip(1));
                Some(Io::Entry(io))
            },
        }
    }
}

impl Flow for DeleteEntryFlow {
    open spec fn key(&self) -> Seq<char> {
        self.key@
    }

    open spec fn secret(&self) -> Option<Secret> {
        self.secret
    }

    open spec fn salt(&self) -> Option<Vec<u8>> {
        self.salt
    }

    fn get_key(&self) -> (key: &str) {
        self.key.as_str()
    }

    fn take_secret(&mut self) -> (secret: Option<Secret>)
        ensures
            final(self).delete == old(self).delete,
            final(self).key == old(self).key,
    {
        self.secret.take()
    }

    fn take_salt(&mut self) -> (salt: Option<Vec<u8>>)
        ensures
            final(self).delete == old(self).delete,
            final(self).key == old(self).key,
    {
        self.salt.take()
    }

    fn put_secret(&mut self, secret: Secret)
        ensures
            final(self).delete == old(self).delete,
            final(self).key == old(self).key,
    {
        self.secret = Some(secret);
    }

    fn put_salt(&mut self, salt: Vec<u8>)
        ensures
            final(self).delete == old(self).delete,
            final(self).key == old(self).key,
    {
        self.salt = Some(salt);
    }
}

impl Clone for DeleteEntryFlow {
    fn clone(&self) -> (copy: Self)
        ensures
            copy.delete == self.delete,
            copy.key == self.key,
            bytes_of(copy.secret) == bytes_of(self.secret),
            salt_of(copy.salt) == salt_of(self.salt),
    {
        let secret = match &self.secret {
            Some(secret) => Some(secret.clone()),
            None => None,
        };
        let salt = match &self.salt {
            Some(salt) => Some(salt.clone()),
            None => None,
        };
        DeleteEntryFlow { delete: self.delete, key: self.key.clone(), secret, salt }
    }
}

/// Under Diffie-Hellman a read is the read and then the decryption, a write
/// the encryption and then the write; without encryption the crypto steps
/// are left out. A deletion is the deletion alone.
pub proof fn lemma_step_sequences(
    read: ReadEntryFlow,
    write: WriteEntryFlow,
    delete: DeleteEntryFlow,
)
    requires
        read.state == Some(ReadEntryState::Read),
        write.state == Some(
            if write.encryption == Algorithm::Dh {
                WriteEntryState::Encrypt
            } else {
                WriteEntryState::Write
            },
        ),
        delete.delete == Some(EntryIo::Delete),
    ensures
        read.encryption == Algorithm::Dh ==> read.steps() == seq![
            Io::Entry(EntryIo::Read),
            Io::Crypto(CryptoIo::Decrypt),
        ],
        read.encryption == Algorithm::Plain ==> read.steps() == seq![Io::Entry(EntryIo::Read)],
        write.encryption == Algorithm::Dh ==> write.steps() == seq![
            Io::Crypto(CryptoIo::Encrypt),
            Io::Entry(EntryIo::Write),
        ],
        write.encryption == Algorithm::Plain ==> write.steps() == seq![Io::Entry(EntryIo::Write)],
        delete.steps() == seq![Io::Entry(EntryIo::Delete)],
{
}

} // verus!
