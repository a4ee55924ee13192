//! The resumable flow that deletes a keyring entry.

use vstd::prelude::*;
use crate::entry::Entry;
use crate::io::{handed_in, Io};

verus! {

/// Deletes an entry: asks once for the deletion, then ends when the driver
/// reports it done.
#[derive(Debug)]
pub struct Delete {
    /// What the request will hand to the driver; gone once it is handed out.
    pub input: Option<Entry>,
    /// Whether the flow was handed an answer that it did not ask for.
    pub unexpected: bool,
}

impl Delete {
    /// The flow with nothing left to hand out.
    pub open spec fn spent(self) -> Self {
        Delete { input: None, unexpected: self.unexpected }
    }

    /// The flow after an answer that it did not ask for.
    pub open spec fn derailed(self) -> Self {
        Delete { input: None, unexpected: true }
    }

    /// What `resume` does: the flow afterwards, and what it returns.
    pub open spec fn resumed(self, input: Option<Io>) -> (Self, Result<(), Io>) {
        if self.unexpected {
            (self, Err(Io::UnexpectedInput(Box::new(handed_in(input)))))
        } else {
            match input {
                None => match self.input {
                    Some(entry) => (self.spent(), Err(Io::Delete(Err(entry)))),
                    None => (self, Err(Io::UnavailableInput)),
                },
                Some(Io::Delete(Ok(()))) => (self.spent(), Ok(())),
                Some(other) => (self.derailed(), Err(Io::UnexpectedInput(Box::new(other)))),
            }
        }
    }

    pub fn new(input: Entry) -> (flow: Self)
        ensures
            flow.input == Some(input),
            !flow.unexpected,
    {
        Self { input: Some(input), unexpected: false }
    }

    /// Moves the flow on. With no input it hands out the request to delete,
    /// once, and reports later that it owes none. With the answer to the
    /// request it ends. Any other input is handed back as
    /// unexpected, and from then on whatever is handed in is.
    pub fn resume(&mut self, input: Option<Io>) -> (output: Result<(), Io>)
        ensures
            (*final(self), output) == old(self).resumed(input),
    {
        if self.unexpected {
            return match input {
                Some(io) => Err(Io::UnexpectedInput(Box::new(io))),
                None => Err(Io::UnexpectedInput(Box::new(Io::UnavailableInput))),
            };
        }
        match input {
            None => match self.input.take() {
                Some(entry) => Err(Io::Delete(Err(entry))),
                None => Err(Io::UnavailableInput),
            },
            Some(Io::Delete(Ok(()))) => {
                self.input = None;
                Ok(())
            },
            Some(other) => {
                self.input = None;
                self.unexpected = true;
                Err(Io::UnexpectedInput(Box::new(other)))
            },
        }
    }

    /// The first call with no input hands out the request, and with it
    /// what the flow was made for.
    pub proof fn lemma_first_resume_requests(self)
        requires
            self.input is Some,
            !self.unexpected,
        ensures
            self.resumed(None) == (
                self.spent(),
                Err::<(), Io>(Io::Delete(Err(self.input->0))),
            ),
    {
    }

    /// A flow that has ended hands out no request any more: whatever is
    /// handed in next, and after that, it ends again or reports one of the
    /// two protocol errors.
    pub proof fn lemma_no_request_after_the_end(self, input: Option<Io>, next: Option<Io>, later: Option<Io>)
        requires
            self.resumed(input).1 is Ok,
        ensures
            self.resumed(input).0.resumed(next).1 matches Err(io) ==> !io.is_request(),
            self.resumed(input).0.resumed(next).0.resumed(later).1 matches Err(io)
                ==> !io.is_request(),
    {
    }

    /// The request is handed out at most once: a flow that has none left
    /// never has one again.
    pub proof fn lemma_request_is_handed_out_once(self, input: Option<Io>)
        requires
            self.input is None,
        ensures
            self.resumed(input).0.input is None,
            self.resumed(input).1 matches Err(io) ==> !io.is_request(),
    {
    }

    /// An answer that the flow did not ask for is handed back as
    /// unexpected, and so is whatever is handed in after it: the flow stays
    /// as it is then.
    pub proof fn lemma_unexpected_input_stays(self, input: Io, later: Option<Io>)
        requires
            !(input matches Io::Delete(Ok(_))),
        ensures
            self.resumed(Some(input)).1 == Err::<(), Io>(
                Io::UnexpectedInput(Box::new(input)),
            ),
            self.resumed(Some(input)).0.unexpected,
            self.resumed(Some(input)).0.resumed(later) == (
                self.resumed(Some(input)).0,
                Err::<(), Io>(Io::UnexpectedInput(Box::new(handed_in(later)))),
            ),
    {
    }
}

impl Clone for Delete {
    fn clone(&self) -> (copy: Self)
        ensures
            copy == *self,
    {
        match &self.input {
            Some(entry) => Delete { input: Some(entry.clone()), unexpected: self.unexpected },
            None => Delete { input: None, unexpected: self.unexpected },
        }
    }
}

} // verus!
