//! The flow that deletes a keyring entry.

use vstd::prelude::*;
use crate::entry::Entry;
use crate::flows::Io;
use crate::state::State;

verus! {

/// Deletes an entry. The driver deletes it and marks the workspace done.
#[derive(Debug)]
pub struct Delete {
    pub state: State,
}

impl Delete {
    /// What `next` returns: the end once the driver has marked the
    /// workspace done, the request to delete until then.
    pub open spec fn step(self) -> Result<(), Io> {
        if self.state.is_done() {
            Ok(())
        } else {
            Err(Io::Delete)
        }
    }

    pub fn new(entry: Entry) -> (flow: Self)
        ensures
            flow.state.entry == entry,
            flow.state.secret is None,
            flow.state.done is None,
            flow.state.salt is None,
            flow.step() == Err::<(), Io>(Io::Delete),
    {
        Self { state: State::new(entry) }
    }

    /// Says what is left to do, and changes nothing.
    pub fn next(&mut self) -> (output: Result<(), Io>)
        ensures
            output == old(self).step(),
            *final(self) == *old(self),
    {
        match self.state.done {
            Some(true) => Ok(()),
            _ => Err(Io::Delete),
        }
    }

    /// The workspace, for the driver to work on.
    pub fn as_mut(&mut self) -> (state: &mut State)
        ensures
            *state == old(self).state,
            *final(self) == (Delete { state: *final(state) }),
    {
        &mut self.state
    }
}

impl Clone for Delete {
    fn clone(&self) -> (copy: Self)
        ensures
            copy.state.entry == self.state.entry,
            copy.state.secret_bytes() == self.state.secret_bytes(),
            copy.state.done == self.state.done,
            copy.state.salt_bytes() == self.state.salt_bytes(),
    {
        Self { state: self.state.clone() }
    }
}

} // verus!
