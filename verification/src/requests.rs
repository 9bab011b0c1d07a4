//! The typed request structures of the protocol, with the shared error
//! taxonomy on every fallible path.

pub mod read;
pub mod write;
