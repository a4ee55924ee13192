//! The driver of flows against the keychain of the operating system. The
//! keychain itself is reached by the caller: this module says what to ask
//! of it, and takes in what it answered.

use vstd::prelude::*;
use crate::flows::Io;
use crate::secret::Secret;
use crate::state::State;

verus! {

/// What is asked of the keychain.
#[derive(Debug)]
pub enum Request {
    /// To hand out the secret of the entry.
    Read { service: String, name: String },
    /// To store `secret` as the secret of the entry.
    Write { service: String, name: String, secret: Secret },
    /// To delete the entry.
    Delete { service: String, name: String },
}

/// What the keychain answered.
#[derive(Debug)]
pub enum Answer {
    /// The secret of the entry.
    Secret(Vec<u8>),
    /// The secret is stored.
    Stored,
    /// The entry is deleted.
    Deleted,
    /// The keychain failed.
    Failed(Error),
}

/// The failures of the keychain driver.
#[derive(Debug)]
pub enum Error {
    /// The keychain has no such entry, or there is no secret to write.
    NoEntry,
    /// The keychain failed otherwise; the words are the cause.
    Keychain(String),
}

/// What `handle` asks of the keychain for a step, and the workspace after:
/// a write takes the secret out of the workspace, and fails where there is
/// none.
pub open spec fn handled(state: State, io: Io) -> (State, Result<Request, Error>) {
    match io {
        Io::Read => (
            state,
            Ok(Request::Read { service: state.entry.service, name: state.entry.name }),
        ),
        Io::Write => match state.secret {
            Some(secret) => (
                State { secret: None, ..state },
                Ok(Request::Write { service: state.entry.service, name: state.entry.name, secret }),
            ),
            None => (state, Err(Error::NoEntry)),
        },
        Io::Delete => (
            state,
            Ok(Request::Delete { service: state.entry.service, name: state.entry.name }),
        ),
    }
}

/// What is to be asked of the keychain for the step `io` of a flow.
pub fn handle(state: &mut State, io: Io) -> (request: Result<Request, Error>)
    ensures
        (*final(state), request) == handled(*old(state), io),
{
    match io {
        Io::Read => Ok(read(state)),
        Io::Write => write(state),
        Io::Delete => Ok(delete(state)),
    }
}

/// The request for the secret of the entry.
pub fn read(state: &State) -> (request: Request)
    ensures
        request == (Request::Read { service: state.entry.service, name: state.entry.name }),
{
    Request::Read { service: state.entry.service.clone(), name: state.entry.name.clone() }
}

/// The request to store the secret of the workspace, which is taken out of
/// it. Fails where the workspace holds none.
pub fn write(state: &mut State) -> (request: Result<Request, Error>)
    ensures
        (*final(state), request) == handled(*old(state), Io::Write),
{
    let secret = match state.take_secret() {
        Some(secret) => secret,
        None => { return Err(Error::NoEntry); },
    };
    Ok(
        Request::Write {
            service: state.entry.service.clone(),
            name: state.entry.name.clone(),
            secret,
        },
    )
}

/// The request to delete the entry.
pub fn delete(state: &State) -> (request: Request)
    ensures
        request == (Request::Delete { service: state.entry.service, name: state.entry.name }),
{
    Request::Delete { service: state.entry.service.clone(), name: state.entry.name.clone() }
}

/// Takes in what the keychain answered. A secret is put into the
/// workspace, which marks it done; a success marks the workspace done; a
/// failure is handed on and leaves the workspace as it was.
pub fn complete(state: &mut State, answer: Answer) -> (outcome: Result<(), Error>)
    ensures
        match answer {
            Answer::Secret(bytes) => {
                &&& outcome is Ok
                &&& final(state).secret_bytes() == Some(bytes@)
                &&& final(state).done == Some(true)
                &&& final(state).entry == old(state).entry
                &&& final(state).salt == old(state).salt
            },
            Answer::Stored | Answer::Deleted => {
                &&& outcome is Ok
                &&& *final(state) == (State { done: Some(true), ..*old(state) })
            },
            Answer::Failed(error) => {
                &&& outcome == Err::<(), Error>(error)
                &&& *final(state) == *old(state)
            },
        },
{
    match answer {
        Answer::Secret(bytes) => {
            state.set_secret(Secret::new(bytes));
            Ok(())
        },
        Answer::Stored => {
            state.done();
            Ok(())
        },
        Answer::Deleted => {
            state.done();
            Ok(())
        },
        Answer::Failed(error) => Err(error),
    }
}

/// The service and the name under which a keychain keeps a secret.
pub type Place = (Seq<char>, Seq<char>);

/// What a keychain keeps, as far as the driver can tell: the model against
/// which the driver's work is stated. The laws below hold of every keychain
/// that keeps what it was asked to store until it is asked to delete it,
/// and that answers from what it keeps.
pub struct Keychain {
    pub secrets: Map<Place, Seq<u8>>,
}

impl Keychain {
    /// What is kept once the keychain has served `request`.
    pub open spec fn after(self, request: Request) -> Keychain {
        match request {
            Request::Read { .. } => self,
            Request::Write { service, name, secret } => Keychain {
                secrets: self.secrets.insert((service@, name@), secret@),
            },
            Request::Delete { service, name } => Keychain {
                secrets: self.secrets.remove((service@, name@)),
            },
        }
    }

    /// Whether `answer` is what a keychain that keeps this answers to
    /// `request`: the secret of the entry, that it is stored, that it is
    /// deleted, or that there is no such entry.
    pub open spec fn answers(self, request: Request, answer: Answer) -> bool {
        match request {
            Request::Read { service, name } => if self.secrets.dom().contains((service@, name@)) {
                answer matches Answer::Secret(bytes) && bytes@ == self.secrets[(service@, name@)]
            } else {
                answer == Answer::Failed(Error::NoEntry)
            },
            Request::Write { .. } => answer == Answer::Stored,
            Request::Delete { service, name } => if self.secrets.dom().contains(
                (service@, name@),
            ) {
                answer == Answer::Deleted
            } else {
                answer == Answer::Failed(Error::NoEntry)
            },
        }
    }
}

/// What is written is read back, whatever its bytes, and be there none.
/// Let a keychain serve the write of a workspace that holds `secret`, and
/// then answer the read of the same entry from what it keeps. Then the
/// answer is a secret of the same bytes.
pub proof fn lemma_write_then_read(keychain: Keychain, state: State, secret: Secret, answer: Answer)
    requires
        state.secret == Some(secret),
        keychain.after(handled(state, Io::Write).1->Ok_0).answers(
            handled(handled(state, Io::Write).0, Io::Read).1->Ok_0,
            answer,
        ),
    ensures
        handled(state, Io::Write).1 is Ok,
        handled(state, Io::Write).0.secret is None,
        answer matches Answer::Secret(bytes) && bytes@ == secret@,
{
}

/// What is deleted is gone. Let a keychain serve the deletion of an entry,
/// and then answer the read and a second deletion of the same entry from
/// what it keeps. Then both answers are that there is no such entry.
pub proof fn lemma_delete_then_read(keychain: Keychain, state: State, read: Answer, again: Answer)
    requires
        keychain.after(handled(state, Io::Delete).1->Ok_0).answers(
            handled(state, Io::Read).1->Ok_0,
            read,
        ),
        keychain.after(handled(state, Io::Delete).1->Ok_0).answers(
            handled(state, Io::Delete).1->Ok_0,
            again,
        ),
    ensures
        read == Answer::Failed(Error::NoEntry),
        again == Answer::Failed(Error::NoEntry),
{
}

} // verus!
