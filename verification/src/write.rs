//! Requests that write data to a slave device.

pub mod multiple_registers;
