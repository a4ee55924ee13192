//! The workspace that a flow and its driver share.

use vstd::prelude::*;
use crate::entry::Entry;
use crate::secret::{bytes_of, Secret};

verus! {

/// What one operation on one entry has come to: the secret that was read or
/// is to be written, whether the driver has finished, and the salt that
/// travels with an encrypted secret.
#[derive(Debug)]
pub struct State {
    pub entry: Entry,
    pub secret: Option<Secret>,
    pub done: Option<bool>,
    pub salt: Option<Vec<u8>>,
}

/// The bytes of a salt that may be absent.
pub open spec fn salt_of(salt: Option<Vec<u8>>) -> Option<Seq<u8>> {
    match salt {
        Some(salt) => Some(salt@),
        None => None,
    }
}

impl State {
    /// The bytes of the secret at hand, if there is one.
    pub open spec fn secret_bytes(&self) -> Option<Seq<u8>> {
        bytes_of(self.secret)
    }

    /// The bytes of the salt at hand, if there is one.
    pub open spec fn salt_bytes(&self) -> Option<Seq<u8>> {
        salt_of(self.salt)
    }

    /// Whether the driver has reported the operation as finished.
    pub open spec fn is_done(&self) -> bool {
        self.done == Some(true)
    }

    /// The workspace of an operation that has not started.
    pub fn new(entry: Entry) -> (state: Self)
        ensures
            state.entry == entry,
            state.secret is None,
            state.done is None,
            state.salt is None,
    {
        Self { entry, secret: None, done: None, salt: None }
    }

    pub fn get_service(&self) -> (service: &str)
        ensures
            service@ == self.entry.service@,
    {
        self.entry.service.as_str()
    }

    pub fn get_name(&self) -> (name: &str)
        ensures
            name@ == self.entry.name@,
    {
        self.entry.name.as_str()
    }

    /// Puts a secret into the workspace and marks the operation as
    /// finished. A secret that was there before is dropped.
    pub fn set_secret(&mut self, secret: Secret)
        ensures
            final(self).secret == Some(secret),
            final(self).done == Some(true),
            final(self).entry == old(self).entry,
            final(self).salt == old(self).salt,
    {
        self.secret = Some(secret);
        self.done();
    }

    /// Takes the secret out of the workspace.
    pub fn take_secret(&mut self) -> (secret: Option<Secret>)
        ensures
            secret == old(self).secret,
            final(self).secret is None,
            final(self).entry == old(self).entry,
            final(self).done == old(self).done,
            final(self).salt == old(self).salt,
    {
        self.secret.take()
    }

    /// Puts a salt into the workspace.
    pub fn set_salt(&mut self, salt: Vec<u8>)
        ensures
            final(self).salt == Some(salt),
            final(self).entry == old(self).entry,
            final(self).secret == old(self).secret,
            final(self).done == old(self).done,
    {
        self.salt = Some(salt);
    }

    /// Takes the salt out of the workspace.
    pub fn take_salt(&mut self) -> (salt: Option<Vec<u8>>)
        ensures
            salt == old(self).salt,
            final(self).salt is None,
            final(self).entry == old(self).entry,
            final(self).secret == old(self).secret,
            final(self).done == old(self).done,
    {
        self.salt.take()
    }

    /// Marks the operation as finished.
    pub fn done(&mut self)
        ensures
            final(self).done == Some(true),
            final(self).entry == old(self).entry,
            final(self).secret == old(self).secret,
            final(self).salt == old(self).salt,
    {
        self.done = Some(true);
    }
}

impl Clone for State {
    fn clone(&self) -> (copy: Self)
        ensures
            copy.entry == self.entry,
            copy.secret_bytes() == self.secret_bytes(),
            copy.done == self.done,
            copy.salt_bytes() == self.salt_bytes(),
    {
        let secret = match &self.secret {
            Some(secret) => Some(secret.clone()),
            None => None,
        };
        let salt = match &self.salt {
            Some(salt) => Some(salt.clone()),
            None => None,
        };
        Self { entry: self.entry.clone(), secret, done: self.done, salt }
    }
}

} // verus!
