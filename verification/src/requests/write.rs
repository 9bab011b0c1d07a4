//! The typed requests that write data to a device.

pub mod single;
