//! Request structures that report a failed parse as an absent value and
//! hand the untouched input back, so a caller can retry or reroute it.

pub mod read;
pub mod write;
