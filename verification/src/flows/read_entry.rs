//! The flow that reads the secret of a keyring entry and keeps it until the
//! caller takes it.

use vstd::prelude::*;
use crate::entry::{Entry, DEFAULT_SERVICE};
use crate::flows::Io;
use crate::secret::Secret;
use crate::state::State;

verus! {

/// Reads the secret of an entry. The driver puts the secret into the
/// workspace, where it stays until `take_secret` hands it to the caller.
#[derive(Debug)]
pub struct ReadEntry {
    pub state: State,
}

impl ReadEntry {
    /// What `next` returns: the request to read for as long as no secret
    /// is there, nothing once there is one.
    pub open spec fn step(self) -> Option<Io> {
        if self.state.secret is None {
            Some(Io::Read)
        } else {
            None
        }
    }

    /// The flow that reads the entry `key` of the default service.
    pub fn new(key: &str) -> (flow: Self)
        ensures
            flow.state.entry@ == (DEFAULT_SERVICE@, key@),
            flow.state.secret is None,
            flow.state.done is None,
            flow.state.salt is None,
            flow.step() == Some(Io::Read),
    {
        Self { state: State::new(Entry::new(key)) }
    }

    /// Says what is left to do, and changes nothing.
    pub fn next(&mut self) -> (output: Option<Io>)
        ensures
            output == old(self).step(),
            *final(self) == *old(self),
    {
        if self.state.secret.is_none() {
            Some(Io::Read)
        } else {
            None
        }
    }

    /// Takes the secret out of the flow.
    pub fn take_secret(&mut self) -> (secret: Option<Secret>)
        ensures
            secret == old(self).state.secret,
            final(self).state.secret is None,
            final(self).state.entry == old(self).state.entry,
            final(self).state.done == old(self).state.done,
            final(self).state.salt == old(self).state.salt,
    {
        self.state.take_secret()
    }

    /// The workspace, for the driver to work on.
    pub fn as_mut(&mut self) -> (state: &mut State)
        ensures
            *state == old(self).state,
            *final(self) == (ReadEntry { state: *final(state) }),
    {
        &mut self.state
    }
}

impl Clone for ReadEntry {
    fn clone(&self) -> (copy: Self)
        ensures
            copy.state.entry == self.state.entry,
            copy.state.secret_bytes() == self.state.secret_bytes(),
            copy.state.done == self.state.done,
            copy.state.salt_bytes() == self.state.salt_bytes(),
    {
        Self { state: self.state.clone() }
    }
}

} // verus!
