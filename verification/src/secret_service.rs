//! The Secret Service side of the library: session negotiation, transport
//! encryption and the flows that are run against the service.

use vstd::prelude::*;

pub mod common;
pub mod connect;
pub mod connector;
pub mod crypto;
pub mod default_collection;
pub mod error;
pub mod flow;
pub mod message;
pub mod model;
pub mod path;
pub mod processor;
pub mod prompt;
pub mod service;
pub mod session;

verus! {

/// One step of a flow against a Secret Service: I/O on the entry, or work
/// on the secret that travels.
#[derive(Clone, Copy, Debug, PartialEq, Eq, Structural)]
pub enum Io {
    /// I/O on the keyring entry, through the service.
    Entry(crate::flows::Io),
    /// Encryption or decryption of the secret in the flow.
    Crypto(crypto::Io),
}

} // verus!
