//! A low level codec for Modbus protocol data units working on raw bytes.
//!
//! Given a slice of bytes believed to hold a complete request, the routines
//! here recognize a typed request and report the unconsumed tail, or turn a
//! typed request back into the exact bytes that represent it. No I/O, no
//! allocation and no session state: every call is a single pure step.

pub mod bitstate;
mod error;
pub mod function;
pub mod functions;
pub mod registerslice;
pub mod request;
pub mod requests;
pub mod slaveid;
pub mod util;
pub mod write;

pub use bitstate::BitState;
pub use error::ModbusSerializationError;
pub use slaveid::SlaveId;
pub use functions::{ModbusFunction, PublicModbusFunction};
