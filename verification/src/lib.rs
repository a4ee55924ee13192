//! Sans-I/O keyring flows: state machines that describe reading, writing and
//! deleting a keyring entry, the Secret Service protocol they are run
//! against, and the transport encryption that protects secrets on the wire.
//!
//! Nothing here performs I/O. A flow says which step is next; a driver says
//! which call on the bus, or which request to the keychain, serves the
//! step, and takes in what the call brought. The caller makes the calls.
//!
//! - [`entry`], [`secret`], [`state`]: the entry, the secret and the
//!   workspace of one operation.
//! - [`flows`], [`coroutines`], [`io`]: the flows, in the style that owns a
//!   workspace and in the resumable style.
//! - [`handlers`]: the driver against the keychain of the operating system.
//! - [`secret_service`]: the driver against a Secret Service, with its
//!   session, its prompts and its transport encryption.

pub mod coroutines;
pub mod entry;
pub mod flows;
pub mod handlers;
pub mod io;
pub mod secret;
pub mod secret_service;
pub mod state;
