//! The requests that a resumable flow hands to its driver, and the answers
//! that the driver hands back.

use vstd::prelude::*;
use crate::entry::Entry;
use crate::secret::Secret;

verus! {

/// One exchange between a resumable flow and its driver. A flow hands out
/// the `Err` side of a request, with what the driver needs to serve it; the
/// driver hands back the `Ok` side, with what it found.
#[derive(Debug)]
pub enum Io {
    /// The flow was resumed with nothing, and it owes nothing.
    UnavailableInput,
    /// The flow was resumed with an answer that it did not ask for.
    UnexpectedInput(Box<Io>),
    /// Reading the secret of an entry.
    Read(Result<Secret, Entry>),
    /// Saving a secret into an entry.
    Write(Result<(), (Entry, Secret)>),
    /// Deleting an entry.
    Delete(Result<(), Entry>),
}

impl Io {
    /// Whether this is work for a driver, as opposed to an answer or to one
    /// of the two protocol errors.
    pub open spec fn is_request(self) -> bool {
        match self {
            Io::Read(Err(_)) => true,
            Io::Write(Err(_)) => true,
            Io::Delete(Err(_)) => true,
            _ => false,
        }
    }
}

impl Io {
    /// Whether two exchanges are of one kind and carry the same: the same
    /// entry, and secrets of the same bytes.
    pub open spec fn alike(self, other: Io) -> bool
        decreases self,
    {
        match (self, other) {
            (Io::UnavailableInput, Io::UnavailableInput) => true,
            (Io::UnexpectedInput(mine), Io::UnexpectedInput(theirs)) => (*mine).alike(*theirs),
            (Io::Read(Ok(mine)), Io::Read(Ok(theirs))) => mine@ == theirs@,
            (Io::Read(Err(mine)), Io::Read(Err(theirs))) => mine == theirs,
            (Io::Write(Ok(_)), Io::Write(Ok(_))) => true,
            (Io::Write(Err(mine)), Io::Write(Err(theirs))) => mine.0 == theirs.0 && mine.1@
                == theirs.1@,
            (Io::Delete(Ok(_)), Io::Delete(Ok(_))) => true,
            (Io::Delete(Err(mine)), Io::Delete(Err(theirs))) => mine == theirs,
            _ => false,
        }
    }
}

impl Clone for Io {
    fn clone(&self) -> (copy: Self)
        ensures
            self.alike(copy),
        decreases *self,
    {
        match self {
            Io::UnavailableInput => Io::UnavailableInput,
            Io::UnexpectedInput(inner) => {
                let inner: &Io = &**inner;
                Io::UnexpectedInput(Box::new(inner.clone()))
            },
            Io::Read(Ok(secret)) => Io::Read(Ok(secret.clone())),
            Io::Read(Err(entry)) => Io::Read(Err(entry.clone())),
            Io::Write(Ok(())) => Io::Write(Ok(())),
            Io::Write(Err((entry, secret))) => Io::Write(Err((entry.clone(), secret.clone()))),
            Io::Delete(Ok(())) => Io::Delete(Ok(())),
            Io::Delete(Err(entry)) => Io::Delete(Err(entry.clone())),
        }
    }
}

/// What a flow that was derailed hands back as unexpected: what was handed
/// in, or the report that nothing was.
pub open spec fn handed_in(input: Option<Io>) -> Io {
    match input {
        Some(io) => io,
        None => Io::UnavailableInput,
    }
}

} // verus!
