//! Object paths, by which a Secret Service names its sessions, collections,
//! items and prompts.

use vstd::prelude::*;
use vstd::string::StringExecFns;

verus! {

/// The path that a service returns in place of an object that it did not
/// make: the root.
pub const EMPTY_PATH: &'static str = "/";

/// The path of an object of the service.
#[derive(Debug)]
pub struct ObjectPath {
    pub path: String,
}

impl View for ObjectPath {
    type V = Seq<char>;

    open spec fn view(&self) -> Seq<char> {
        self.path@
    }
}

impl ObjectPath {
    /// Whether this is the path that stands for no object.
    pub open spec fn is_empty_path(&self) -> bool {
        self@ == EMPTY_PATH@
    }

    pub fn new(path: &str) -> (object: Self)
        ensures
            object@ == path@,
    {
        Self { path: String::from_str(path) }
    }

    /// The path that stands for no object.
    pub fn empty() -> (object: Self)
        ensures
            object.is_empty_path(),
    {
        Self { path: String::from_str(EMPTY_PATH) }
    }

    /// Whether this is the path that stands for no object.
    pub fn is_empty(&self) -> (empty: bool)
        ensures
            empty == self.is_empty_path(),
    {
        let root = String::from_str(EMPTY_PATH);
        self.path == root
    }

    pub fn as_str(&self) -> (path: &str)
        ensures
            path@ == self@,
    {
        self.path.as_str()
    }
}

impl Clone for ObjectPath {
    fn clone(&self) -> (copy: Self)
        ensures
            copy == *self,
    {
        Self { path: self.path.clone() }
    }
}

impl PartialEq for ObjectPath {
    fn eq(&self, other: &Self) -> (equal: bool) {
        self.path == other.path
    }
}

impl Eq for ObjectPath {}

impl vstd::std_specs::cmp::PartialEqSpecImpl for ObjectPath {
    open spec fn obeys_eq_spec() -> bool {
        true
    }

    open spec fn eq_spec(&self, other: &Self) -> bool {
        self@ == other@
    }
}

impl Default for ObjectPath {
    fn default() -> (object: Self)
        ensures
            object.is_empty_path(),
    {
        Self::empty()
    }
}

} // verus!
