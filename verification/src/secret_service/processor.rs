//! The driver of a flow against a Secret Service: serves each step that the
//! flow hands out, the entry steps through the service and the crypto steps
//! with the key of the session.

use vstd::prelude::*;
use crate::flows::Io as EntryIo;
use crate::secret::bytes_of;
use crate::secret_service::connector::IoConnector;
use crate::secret_service::crypto::connector::IoConnector as CryptoConnector;
use crate::secret_service::crypto::error::Error as CryptoError;
use crate::secret_service::crypto::Io as CryptoIo;
use crate::secret_service::error::{Error, ErrorView};
use crate::secret_service::flow::Flow;
use crate::secret_service::message::{Reply, Turn, TurnView};
use crate::secret_service::service::SecretService;
use crate::secret_service::session::Session;
use crate::secret_service::Io;

verus! {

/// Serves the crypto steps of a flow.
pub struct CryptoIoProcessor {
    pub connector: CryptoConnector,
}

impl CryptoIoProcessor {
    /// The crypto driver of a session. Fails under Diffie-Hellman where the
    /// session lacks the service's public key or our keypair.
    pub fn try_new(session: &Session) -> (processor: Result<Self, CryptoError>)
        ensures
            match processor {
                Ok(processor) => CryptoConnector::made_from(*session, Ok(processor.connector)),
                Err(error) => CryptoConnector::made_from(*session, Err(error)),
            },
    {
        match CryptoConnector::new(session) {
            Ok(connector) => Ok(CryptoIoProcessor { connector }),
            Err(error) => Err(error),
        }
    }

    /// Serves one crypto step of a flow: an encryption under a fresh salt,
    /// or a decryption.
    pub fn process<F: Flow>(&mut self, flow: &mut F, io: CryptoIo) -> (outcome: Result<(), CryptoError>)
        ensures
            *final(self) == *old(self),
            final(flow).key() == old(flow).key(),
            io == CryptoIo::Encrypt ==> CryptoConnector::encrypts(
                old(self).connector.shared_key,
                old(flow).secret(),
                old(flow).salt(),
                final(flow).secret(),
                final(flow).salt(),
                outcome,
            ),
            io == CryptoIo::Decrypt ==> CryptoConnector::decrypts(
                old(self).connector.shared_key,
                old(flow).secret(),
                old(flow).salt(),
                final(flow).secret(),
                final(flow).salt(),
                outcome,
            ),
            forall|plaintext: Seq<u8>|
                io == CryptoIo::Decrypt && CryptoConnector::seals(
                    old(self).connector.shared_key,
                    old(flow).salt(),
                    plaintext,
                    old(flow).secret(),
                ) ==> outcome is Ok && bytes_of(final(flow).secret()) == Some(plaintext),
    {
        match io {
            CryptoIo::Encrypt => self.connector.encrypt(flow),
            CryptoIo::Decrypt => self.connector.decrypt(flow),
        }
    }
}

/// Serves every step of a flow.
pub struct IoProcessor {
    pub crypto: CryptoIoProcessor,
    pub ss: IoConnector,
}

/// What the outcome of a crypto step is as a turn of the driver.
pub open spec fn crypto_turn(outcome: Result<(), CryptoError>) -> TurnView<()> {
    match outcome {
        Ok(()) => TurnView::Done(()),
        Err(error) => TurnView::Failed(ErrorView::CryptoError(error)),
    }
}

/// The outcome of a crypto step that a turn of the driver stands for.
pub open spec fn crypto_outcome(turn: TurnView<()>) -> Result<(), CryptoError> {
    match turn {
        TurnView::Failed(ErrorView::CryptoError(error)) => Err(error),
        _ => Ok(()),
    }
}

impl IoProcessor {
    /// The driver for the entries of the keyring service `service`, on the
    /// open Secret Service `ss`. Fails where the crypto driver of the
    /// session cannot be made.
    pub fn try_new(service: &str, ss: SecretService) -> (processor: Result<Self, Error>)
        ensures
            match processor {
                Ok(processor) => {
                    &&& processor.ss.service@ == service@
                    &&& processor.ss.dbus == ss
                    &&& processor.ss.pending is Idle
                    &&& CryptoConnector::made_from(ss.session, Ok(processor.crypto.connector))
                },
                Err(error) => {
                    &&& error is CryptoError
                    &&& CryptoConnector::made_from(ss.session, Err(error->CryptoError_0))
                },
            },
    {
        match CryptoIoProcessor::try_new(&ss.session) {
            Ok(crypto) => Ok(IoProcessor { crypto, ss: IoConnector::new(service, ss) }),
            Err(error) => Err(Error::CryptoError(error)),
        }
    }

    /// Serves the step `io` of a flow. A crypto step is served at once,
    /// whatever `reply` holds. An entry step is served one call at a time,
    /// as `read`, `write` and `delete` of the entry driver serve it: with
    /// no reply at first, then with what each call brought.
    pub fn process<F: Flow>(&mut self, flow: &mut F, io: Io, reply: Option<Reply>) -> (turn: Turn<()>)
        ensures
            final(self).crypto == old(self).crypto,
            final(self).ss.service == old(self).ss.service,
            final(self).ss.dbus == old(self).ss.dbus,
            final(flow).key() == old(flow).key(),
            io is Crypto ==> final(self).ss.pending == old(self).ss.pending && turn@
                == crypto_turn(crypto_outcome(turn@)),
            io == Io::Crypto(CryptoIo::Encrypt) ==> CryptoConnector::encrypts(
                old(self).crypto.connector.shared_key,
                old(flow).secret(),
                old(flow).salt(),
                final(flow).secret(),
                final(flow).salt(),
                crypto_outcome(turn@),
            ),
            io == Io::Crypto(CryptoIo::Decrypt) ==> CryptoConnector::decrypts(
                old(self).crypto.connector.shared_key,
                old(flow).secret(),
                old(flow).salt(),
                final(flow).secret(),
                final(flow).salt(),
                crypto_outcome(turn@),
            ),
            forall|plaintext: Seq<u8>|
                io == Io::Crypto(CryptoIo::Decrypt) && CryptoConnector::seals(
                    old(self).crypto.connector.shared_key,
                    old(flow).salt(),
                    plaintext,
                    old(flow).secret(),
                ) ==> turn@ == TurnView::Done(()) && bytes_of(final(flow).secret()) == Some(
                    plaintext,
                ),
            io == Io::Entry(EntryIo::Read) ==> {
                let step = old(self).ss.read_step(old(flow).key(), reply);
                &&& (final(self).ss.pending, turn@) == step.0
                &&& match step.1 {
                    Some(tuple) => {
                        &&& bytes_of(final(flow).secret()) == Some(tuple.value@)
                        &&& final(flow).salt() == Some(tuple.params)
                    },
                    None => {
                        &&& final(flow).secret() == old(flow).secret()
                        &&& final(flow).salt() == old(flow).salt()
                    },
                }
            },
            io == Io::Entry(EntryIo::Write) ==> {
                let takes = old(self).ss.write_takes(old(flow).secret(), reply);
                &&& (final(self).ss.pending, turn@) == old(self).ss.write_step(
                    old(flow).key(),
                    old(flow).secret(),
                    old(flow).salt(),
                    reply,
                )
                &&& takes ==> final(flow).secret() is None && final(flow).salt() is None
                &&& !takes ==> final(flow).secret() == old(flow).secret()
                &&& !takes ==> final(flow).salt() == old(flow).salt()
            },
            io == Io::Entry(EntryIo::Delete) ==> {
                &&& (final(self).ss.pending, turn@) == old(self).ss.delete_step(
                    old(flow).key(),
                    reply,
                )
                &&& *final(flow) == *old(flow)
            },
    {
        match io {
            Io::Crypto(io) => match self.crypto.process(flow, io) {
                Ok(()) => Turn::Done(()),
                Err(error) => Turn::Failed(Error::CryptoError(error)),
            },
            Io::Entry(EntryIo::Read) => self.ss.read(flow, reply),
            Io::Entry(EntryIo::Write) => self.ss.write(flow, reply),
            Io::Entry(EntryIo::Delete) => self.ss.delete(flow, reply),
        }
    }
}

} // verus!
