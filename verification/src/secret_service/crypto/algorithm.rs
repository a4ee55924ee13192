//! The session algorithms that a Secret Service can be asked for.

use vstd::prelude::*;

verus! {

/// Wire name of the algorithm that sends secrets unencrypted.
pub const ALGORITHM_PLAIN: &'static str = "plain";

/// Wire name of the Diffie-Hellman and AES-128-CBC algorithm.
pub const ALGORITHM_DH: &'static str = "dh-ietf1024-sha256-aes128-cbc-pkcs7";

/// How secrets travel between the library and the service.
#[derive(Clone, Copy, Debug, PartialEq, Eq, Structural)]
pub enum Algorithm {
    /// Secrets travel as they are.
    Plain,
    /// Secrets travel under a key agreed by Diffie-Hellman.
    Dh,
}

impl Algorithm {
    /// The name under which the service knows the algorithm.
    pub open spec fn name(self) -> Seq<char> {
        match self {
            Algorithm::Plain => ALGORITHM_PLAIN@,
            Algorithm::Dh => ALGORITHM_DH@,
        }
    }

    /// The name under which the service knows the algorithm.
    pub fn as_ref(&self) -> (name: &'static str)
        ensures
            name@ == self.name(),
    {
        match self {
            Algorithm::Plain => ALGORITHM_PLAIN,
            Algorithm::Dh => ALGORITHM_DH,
        }
    }
}

impl Default for Algorithm {
    fn default() -> (algorithm: Self)
        ensures
            algorithm == Algorithm::Plain,
    {
        Algorithm::Plain
    }
}

} // verus!
