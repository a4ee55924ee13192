//! The session that was negotiated with a Secret Service.

use vstd::prelude::*;
use crate::secret_service::crypto::algorithm::Algorithm;
use crate::secret_service::crypto::bigint::{be_value, value_of};
use crate::secret_service::crypto::cipher::{shared_key, AesKey};
use crate::secret_service::crypto::dh::Keypair;
use crate::secret_service::path::ObjectPath;

verus! {

/// A session: its path at the service, its algorithm and, under
/// Diffie-Hellman, our keypair, the public key that the service sent, and
/// the key that both derive.
pub struct Session {
    pub path: ObjectPath,
    pub encryption: Algorithm,
    pub keypair: Option<Keypair>,
    pub output: Option<Vec<u8>>,
    pub shared_key: Option<AesKey>,
}

impl Session {
    /// A session holds a shared key exactly under Diffie-Hellman, and the
    /// key is the one derived from our private exponent and the service's
    /// public key.
    pub open spec fn wf(&self) -> bool {
        match self.encryption {
            Algorithm::Plain => self.keypair is None && self.output is None
                && self.shared_key is None,
            Algorithm::Dh => {
                &&& self.keypair is Some
                &&& self.output is Some
                &&& self.shared_key is Some
                &&& self.shared_key->0@ == shared_key(
                    be_value(self.output->0@),
                    value_of(self.keypair->0.private),
                )
            },
        }
    }

    /// A session without encryption.
    pub fn new_plain(path: ObjectPath) -> (session: Self)
        ensures
            session.wf(),
            session.path == path,
            session.encryption == Algorithm::Plain,
    {
        Self { path, encryption: Algorithm::Plain, keypair: None, output: None, shared_key: None }
    }

    /// A session under Diffie-Hellman. `output` is the public key that the
    /// service sent, most significant byte first; the shared key is derived
    /// here and kept.
    pub fn new_dh(path: ObjectPath, keypair: Keypair, output: Vec<u8>) -> (session: Self)
        ensures
            session.wf(),
            session.path == path,
            session.encryption == Algorithm::Dh,
            session.keypair == Some(keypair),
            session.output == Some(output),
    {
        let key = keypair.derive_shared(output.as_slice());
        Self {
            path,
            encryption: Algorithm::Dh,
            keypair: Some(keypair),
            output: Some(output),
            shared_key: Some(key),
        }
    }
}

} // verus!
