//! Requests that write data to a slave device, reported through options.

pub mod multiple;
pub mod single;
