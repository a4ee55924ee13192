//! Flows that own a workspace: the driver reads and fills the workspace, and
//! `next` says what is left to do.

use vstd::prelude::*;

pub mod delete;
pub mod read;
pub mod read_entry;
pub mod write;

verus! {

/// The I/O that a flow on a keyring entry can ask of its driver.
#[derive(Clone, Copy, Debug, PartialEq, Eq, Structural)]
pub enum Io {
    /// Read the secret of the entry and put it into the flow.
    Read,
    /// Take the secret from the flow and save it into the entry.
    Write,
    /// Delete the entry.
    Delete,
}

} // verus!
