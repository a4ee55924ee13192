//! The flow that reads the secret of a keyring entry.

use vstd::prelude::*;
use crate::entry::Entry;
use crate::flows::Io;
use crate::secret::Secret;
use crate::state::State;

verus! {

/// Reads the secret of an entry. The driver puts the secret into the
/// workspace, where it stays; `next` hands out copies of it.
#[derive(Debug)]
pub struct Read {
    pub state: State,
}

impl Read {
    /// What `next` says: the end, with the bytes of the secret, once the
    /// driver has put one into the workspace, and the request to read
    /// until then.
    pub open spec fn step(self) -> Result<Seq<u8>, Io> {
        match self.state.secret {
            Some(secret) => Ok(secret@),
            None => Err(Io::Read),
        }
    }

    /// What a result of `next` says, the secret as its bytes.
    pub open spec fn said(output: Result<Secret, Io>) -> Result<Seq<u8>, Io> {
        match output {
            Ok(secret) => Ok(secret@),
            Err(io) => Err(io),
        }
    }

    pub fn new(entry: Entry) -> (flow: Self)
        ensures
            flow.state.entry == entry,
            flow.state.secret is None,
            flow.state.done is None,
            flow.state.salt is None,
            flow.step() == Err::<Seq<u8>, Io>(Io::Read),
    {
        Self { state: State::new(entry) }
    }

    /// Says what is left to do, and changes nothing. Once the driver has
    /// put the secret into the workspace, the flow has ended: `next` hands
    /// out a copy of the secret, and does so again each time it is asked,
    /// for as long as the secret stays in the workspace.
    pub fn next(&mut self) -> (output: Result<Secret, Io>)
        ensures
            Self::said(output) == old(self).step(),
            *final(self) == *old(self),
    {
        match &self.state.secret {
            Some(secret) => Ok(secret.clone()),
            None => Err(Io::Read),
        }
    }

    /// The workspace, for the driver to work on.
    pub fn as_mut(&mut self) -> (state: &mut State)
        ensures
            *state == old(self).state,
            *final(self) == (Read { state: *final(state) }),
    {
        &mut self.state
    }

    /// A flow asks for the read for as long as no secret is there, and for
    /// nothing once one is: a flow that has ended asks for no further step.
    pub proof fn lemma_asks_until_served(self)
        ensures
            self.state.secret is None ==> self.step() == Err::<Seq<u8>, Io>(Io::Read),
            self.state.secret is Some ==> self.step() is Ok,
    {
    }

    /// A flow that has been served ends with the bytes of the very secret
    /// that the driver put.
    pub proof fn lemma_ends_with_the_secret(self, secret: Secret)
        requires
            self.state.secret == Some(secret),
        ensures
            self.step() == Ok::<Seq<u8>, Io>(secret@),
    {
    }
}

impl Clone for Read {
    fn clone(&self) -> (copy: Self)
        ensures
            copy.state.entry == self.state.entry,
            copy.state.secret_bytes() == self.state.secret_bytes(),
            copy.state.done == self.state.done,
            copy.state.salt_bytes() == self.state.salt_bytes(),
    {
        Self { state: self.state.clone() }
    }
}

} // verus!
