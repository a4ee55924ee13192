//! The flow that saves a secret into a keyring entry.

use vstd::prelude::*;
use crate::entry::Entry;
use crate::flows::Io;
use crate::secret::Secret;
use crate::state::State;

verus! {

/// Saves a secret into an entry. The flow is made with the secret in its
/// workspace; the driver takes it, saves it and marks the workspace done.
#[derive(Debug)]
pub struct Write {
    pub state: State,
}

impl Write {
    /// What `next` returns: the end once the driver has marked the
    /// workspace done, the request to write until then.
    pub open spec fn step(self) -> Result<(), Io> {
        if self.state.is_done() {
            Ok(())
        } else {
            Err(Io::Write)
        }
    }

    /// The flow that saves `secret` into `entry`. Nothing is done yet.
    pub fn new(entry: Entry, secret: Secret) -> (flow: Self)
        ensures
            flow.state.entry == entry,
            flow.state.secret == Some(secret),
            flow.state.done is None,
            flow.state.salt is None,
            flow.step() == Err::<(), Io>(Io::Write),
    {
        Self { state: State { entry, secret: Some(secret), done: None, salt: None } }
    }

    /// Says what is left to do, and changes nothing.
    pub fn next(&mut self) -> (output: Result<(), Io>)
        ensures
            output == old(self).step(),
            *final(self) == *old(self),
    {
        match self.state.done {
            Some(true) => Ok(()),
            _ => Err(Io::Write),
        }
    }

    /// The workspace, for the driver to work on.
    pub fn as_mut(&mut self) -> (state: &mut State)
        ensures
            *state == old(self).state,
            *final(self) == (Write { state: *final(state) }),
    {
        &mut self.state
    }
}

impl Clone for Write {
    fn clone(&self) -> (copy: Self)
        ensures
            copy.state.entry == self.state.entry,
            copy.state.secret_bytes() == self.state.secret_bytes(),
            copy.state.done == self.state.done,
            copy.state.salt_bytes() == self.state.salt_bytes(),
    {
        Self { state: self.state.clone() }
    }
}

} // verus!
