//! The way to an open session: the connection to the bus, and the request
//! for a session under the chosen algorithm.

use vstd::prelude::*;
use crate::secret_service::crypto::algorithm::Algorithm;
use crate::secret_service::crypto::dh::Keypair;
use crate::secret_service::crypto::error::Error as CryptoError;
use crate::secret_service::error::{Error, ErrorView};
use crate::secret_service::message::{Call, CallView, Reply, Turn, TurnView};
use crate::secret_service::service::SecretService;

verus! {

/// Where the way to a session stands.
#[derive(Clone, Copy, Debug, PartialEq, Eq, Structural)]
pub enum ConnectState {
    /// Nothing was asked of the driver yet.
    Start,
    /// The connection to the bus was asked for.
    Connecting,
    /// The session was asked for.
    Opening,
    /// The way has ended.
    Finished,
}

/// Opens a session with a Secret Service: connects to the bus, then asks
/// the service for a session under the algorithm, with our public key
/// under Diffie-Hellman.
pub struct Connect {
    pub encryption: Algorithm,
    pub keypair: Option<Keypair>,
    pub state: ConnectState,
}

impl Connect {
    /// The result that a turn ends with, as `opened_session` returns it.
    pub open spec fn outcome(turn: Turn<SecretService>) -> Result<SecretService, Error> {
        match turn {
            Turn::Done(service) => Ok(service),
            Turn::Failed(error) => Err(error),
            Turn::Call(_) => Err(Error::UnexpectedInput),
        }
    }

    /// Whether `resume` may take the way from `self` to `next` with `turn`,
    /// given `reply`. The connection is asked for first. Once it stands,
    /// the session is asked for, or the way ends where Diffie-Hellman lacks
    /// its keypair. What the service answers to that is read as
    /// `opened_session` reads it, and the keypair goes into the session. A
    /// failed connection, a missing reply and a reply that was not asked
    /// for are failures of their own.
    pub open spec fn resumes(self, reply: Option<Reply>, next: Self, turn: Turn<SecretService>) -> bool {
        &&& next.encryption == self.encryption
        &&& match (self.state, reply) {
            (ConnectState::Start, None) => {
                &&& next.state == ConnectState::Connecting
                &&& next.keypair == self.keypair
                &&& turn@ == TurnView::<SecretService>::Call(CallView::Connect)
            },
            (_, None) => {
                &&& next == self
                &&& turn@ == TurnView::<SecretService>::Failed(ErrorView::UnavailableInput)
            },
            (ConnectState::Connecting, Some(Reply::Connected)) => {
                &&& next.keypair == self.keypair
                &&& if self.encryption == Algorithm::Dh && self.keypair is None {
                    &&& next.state == ConnectState::Finished
                    &&& turn@ == TurnView::<SecretService>::Failed(
                        ErrorView::CryptoError(CryptoError::FindPrivkeyError),
                    )
                } else {
                    &&& next.state == ConnectState::Opening
                    &&& turn is Call
                    &&& SecretService::requests_session(
                        self.encryption,
                        self.keypair,
                        Ok(turn->Call_0),
                    )
                }
            },
            (ConnectState::Connecting, Some(Reply::Failed(cause))) => {
                &&& next.state == ConnectState::Finished
                &&& next.keypair == self.keypair
                &&& turn@ == TurnView::<SecretService>::Failed(
                    ErrorView::CreateSessionError(cause@),
                )
            },
            (ConnectState::Opening, Some(reply)) => {
                &&& next.state == ConnectState::Finished
                &&& next.keypair is None
                &&& !(turn is Call)
                &&& SecretService::opens_session(
                    self.encryption,
                    self.keypair,
                    reply,
                    Self::outcome(turn),
                )
            },
            (_, Some(_)) => {
                &&& next.state == ConnectState::Finished
                &&& next.keypair == self.keypair
                &&& turn@ == TurnView::<SecretService>::Failed(ErrorView::UnexpectedInput)
            },
        }
    }

    /// The way to a session under `encryption`, with `keypair` for the key
    /// exchange, before anything was asked of the driver.
    pub fn new(encryption: Algorithm, keypair: Option<Keypair>) -> (connect: Self)
        ensures
            connect.encryption == encryption,
            connect.keypair == keypair,
            connect.state == ConnectState::Start,
    {
        Connect { encryption, keypair, state: ConnectState::Start }
    }

    /// Moves on by what the driver hands in: nothing at first, then what
    /// each call brought.
    pub fn resume(&mut self, reply: Option<Reply>) -> (turn: Turn<SecretService>)
        ensures
            old(self).resumes(reply, *final(self), turn),
    {
        let state = self.state;
        match (state, reply) {
            (ConnectState::Start, None) => {
                self.state = ConnectState::Connecting;
                Turn::Call(Call::Connect)
            },
            (_, None) => Turn::Failed(Error::UnavailableInput),
            (ConnectState::Connecting, Some(Reply::Connected)) => {
                match SecretService::open_session(self.encryption, &self.keypair) {
                    Ok(call) => {
                        self.state = ConnectState::Opening;
                        Turn::Call(call)
                    },
                    Err(error) => {
                        self.state = ConnectState::Finished;
                        Turn::Failed(error)
                    },
                }
            },
            (ConnectState::Connecting, Some(Reply::Failed(cause))) => {
                self.state = ConnectState::Finished;
                Turn::Failed(Error::CreateSessionError(cause))
            },
            (ConnectState::Opening, Some(reply)) => {
                self.state = ConnectState::Finished;
                let keypair = self.keypair.take();
                match SecretService::opened_session(self.encryption, keypair, reply) {
                    Ok(service) => Turn::Done(service),
                    Err(error) => Turn::Failed(error),
                }
            },
            (_, Some(_)) => {
                self.state = ConnectState::Finished;
                Turn::Failed(Error::UnexpectedInput)
            },
        }
    }

    /// A way that has ended stays ended: whatever is handed in, it reports
    /// a misuse and asks for nothing.
    pub proof fn lemma_finished_stays_finished(
        self,
        reply: Option<Reply>,
        next: Self,
        turn: Turn<SecretService>,
    )
        requires
            self.state == ConnectState::Finished,
            self.resumes(reply, next, turn),
        ensures
            next == self,
            turn is Failed,
    {
    }

    /// A session is only ever the answer to the request for one: the way
    /// ends well only from the state in which the session was asked for,
    /// and then with a session that is well formed.
    pub proof fn lemma_done_is_an_opened_session(
        self,
        reply: Option<Reply>,
        next: Self,
        turn: Turn<SecretService>,
    )
        requires
            self.resumes(reply, next, turn),
            turn is Done,
        ensures
            self.state == ConnectState::Opening,
            reply matches Some(Reply::SessionOpened { path, .. }) && turn->Done_0.session.path
                == path,
            turn->Done_0.session.wf(),
            turn->Done_0.session.encryption == self.encryption,
    {
    }
}

impl SecretService {
    /// The way to a session under `encryption`. Under Diffie-Hellman a
    /// fresh keypair is drawn for the key exchange.
    pub fn connect(encryption: Algorithm) -> (connect: Connect)
        ensures
            connect.encryption == encryption,
            connect.state == ConnectState::Start,
            encryption == Algorithm::Plain ==> connect.keypair is None,
            encryption == Algorithm::Dh ==> connect.keypair is Some && connect.keypair->0.wf(),
    {
        match encryption {
            Algorithm::Plain => Connect::new(encryption, None),
            Algorithm::Dh => Connect::new(encryption, Some(Keypair::generate())),
        }
    }
}

} // verus!
