//! Resumable flows: each call of `resume` either asks the driver for one
//! piece of I/O or ends the operation.

pub mod delete;
pub mod read;
pub mod write;
