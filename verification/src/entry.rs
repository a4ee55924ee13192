//! The keyring entry descriptor.

use vstd::prelude::*;
use vstd::string::StringExecFns;

verus! {

/// The service an entry belongs to when none is given.
pub const DEFAULT_SERVICE: &'static str = "keyring_flows";

/// Identifies one credential of a keyring: a service and a name in it.
#[derive(Debug)]
pub struct Entry {
    pub service: String,
    pub name: String,
}

impl View for Entry {
    type V = (Seq<char>, Seq<char>);

    /// The service and the name, as character sequences.
    open spec fn view(&self) -> (Seq<char>, Seq<char>) {
        (self.service@, self.name@)
    }
}

impl Entry {
    /// An entry of the default service.
    pub fn new(name: &str) -> (entry: Self)
        ensures
            entry@ == (DEFAULT_SERVICE@, name@),
    {
        Self { service: String::from_str(DEFAULT_SERVICE), name: String::from_str(name) }
    }

    /// Moves the entry to another service; the name stays.
    pub fn set_service(&mut self, service: &str)
        ensures
            final(self)@ == (service@, old(self).name@),
            final(self).name == old(self).name,
    {
        self.service = String::from_str(service);
    }

    /// The same entry under another service.
    pub fn with_service(self, service: &str) -> (entry: Self)
        ensures
            entry@ == (service@, self.name@),
            entry.name == self.name,
    {
        let mut entry = self;
        entry.set_service(service);
        entry
    }
}

impl Clone for Entry {
    fn clone(&self) -> (copy: Self)
        ensures
            copy == *self,
    {
        Self { service: self.service.clone(), name: self.name.clone() }
    }
}

impl PartialEq for Entry {
    fn eq(&self, other: &Self) -> (equal: bool) {
        self.service == other.service && self.name == other.name
    }
}

impl Eq for Entry {}

impl vstd::std_specs::cmp::PartialEqSpecImpl for Entry {
    open spec fn obeys_eq_spec() -> bool {
        true
    }

    open spec fn eq_spec(&self, other: &Self) -> bool {
        self@ == other@
    }
}

} // verus!
