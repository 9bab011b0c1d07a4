//! The read-request family, reported through options instead of errors.
//!
//! The byte layout is the shared one of all read requests: a 16-bit
//! starting address followed by a 16-bit quantity of items, the function
//! code already consumed by the caller. A body that is too short or asks
//! for zero items parses to nothing, and the input comes back whole.

use vstd::prelude::*;

use crate::function::PublicModbusFunction;
use crate::util::{be16, enc_frame5};

verus! {

/// Reads an address and a nonzero quantity out of the front of `data`:
/// the values and the data past them, or nothing and the whole input.
fn parse_nonzero_body(data: &[u8]) -> (r: (Option<(u16, u16)>, &[u8]))
    ensures
        data@.len() >= 4 && be16(data@[2], data@[3]) != 0 ==> r.0 == Some(
            (be16(data@[0], data@[1]), be16(data@[2], data@[3])),
        ) && r.1@ == data@.subrange(4, data@.len() as int),
        !(data@.len() >= 4 && be16(data@[2], data@[3]) != 0) ==> r.0 == Option::<(u16, u16)>::None
            && r.1@ == data@,
{
    if data.len() < 4 {
        return (None, data);
    }
    let addr = 256 * (data[0] as u16) + (data[1] as u16);
    let quantity = 256 * (data[2] as u16) + (data[3] as u16);
    if quantity == 0 {
        (None, data)
    } else {
        (Some((addr, quantity)), &data[4..data.len()])
    }
}

/// Builds the complete 5-byte frame of a read request.
fn frame5(code: u8, addr: u16, quantity: u16) -> (r: [u8; 5])
    ensures
        r@ == enc_frame5(code, addr, quantity),
{
    let r = [code, (addr / 256) as u8, (addr % 256) as u8, (quantity / 256) as u8, (quantity
        % 256) as u8];
    assert(r@ =~= enc_frame5(code, addr, quantity));
    r
}

/// The request to read a run of coils.
#[derive(Debug, Clone, Copy, Hash, PartialEq, Eq, PartialOrd, Ord, Structural)]
pub struct ReadCoilsRequest {
    /// Starting address of the read request
    pub addr: u16,
    /// Quantity of items to read
    pub quantity: u16,
}

impl ReadCoilsRequest {
    /// The Modbus function this read request corresponds to.
    pub const FUNCTION_CODE: PublicModbusFunction = PublicModbusFunction::ReadCoils;

    pub fn new(addr: u16, quantity: u16) -> (r: Self)
        ensures
            r == (ReadCoilsRequest { addr, quantity }),
    {
        Self { addr, quantity }
    }

    /// Parses this request from modbus data, the parsed data should consist
    /// of [address hi, address lo, quantity hi, quantity lo].
    ///
    /// Where fewer than 4 bytes are present, or the quantity is zero,
    /// nothing is parsed and the whole input comes back. The function code
    /// is missing because it should be parsed by
    /// [function::get_function](crate::function::get_function).
    pub fn from_modbus_data(data: &[u8]) -> (r: (Option<Self>, Option<&[u8]>))
        ensures
            data@.len() >= 4 && be16(data@[2], data@[3]) != 0 ==> (r.1 matches Some(tail)
                && r.0 == Some(
                ReadCoilsRequest {
                    addr: be16(data@[0], data@[1]),
                    quantity: be16(data@[2], data@[3]),
                },
            ) && tail@ == data@.subrange(4, data@.len() as int)),
            !(data@.len() >= 4 && be16(data@[2], data@[3]) != 0) ==> (r.1 matches Some(tail)
                && r.0 == Option::<ReadCoilsRequest>::None && tail@ == data@),
    {
        match parse_nonzero_body(data) {
            (Some((addr, quantity)), tail) => (Some(Self { addr, quantity }), Some(tail)),
            (None, tail) => (None, Some(tail)),
        }
    }

    /// Returns this request as a complete modbus data item request.
    ///
    /// The returned data consists of [function code, address hi, address
    /// lo, quantity hi, quantity lo].
    pub fn as_modbus_data(self) -> (r: [u8; 5])
        ensures
            r@ == enc_frame5(1, self.addr, self.quantity),
    {
        frame5(1, self.addr, self.quantity)
    }

    /// The data consists of [function code, addr hi, addr lo, quantity hi,
    /// quantity lo].
    pub fn new_as_modbus_data(addr: u16, quantity: u16) -> (r: [u8; 5])
        ensures
            r@ == enc_frame5(1, addr, quantity),
    {
        frame5(1, addr, quantity)
    }
}

/// The request to read a run of discrete inputs.
#[derive(Debug, Clone, Copy, Hash, PartialEq, Eq, PartialOrd, Ord, Structural)]
pub struct ReadDiscreteInputsRequest {
    /// Starting address of the read request
    pub addr: u16,
    /// Quantity of items to read
    pub quantity: u16,
}

impl ReadDiscreteInputsRequest {
    /// The Modbus function this read request corresponds to.
    pub const FUNCTION_CODE: PublicModbusFunction = PublicModbusFunction::ReadDiscreteInputs;

    pub fn new(addr: u16, quantity: u16) -> (r: Self)
        ensures
            r == (ReadDiscreteInputsRequest { addr, quantity }),
    {
        Self { addr, quantity }
    }

    /// Parses this request from modbus data, the parsed data should consist
    /// of [address hi, address lo, quantity hi, quantity lo].
    ///
    /// Where fewer than 4 bytes are present, or the quantity is zero,
    /// nothing is parsed and the whole input comes back.
    pub fn from_modbus_data(data: &[u8]) -> (r: (Option<Self>, Option<&[u8]>))
        ensures
            data@.len() >= 4 && be16(data@[2], data@[3]) != 0 ==> (r.1 matches Some(tail)
                && r.0 == Some(
                ReadDiscreteInputsRequest {
                    addr: be16(data@[0], data@[1]),
                    quantity: be16(data@[2], data@[3]),
                },
            ) && tail@ == data@.subrange(4, data@.len() as int)),
            !(data@.len() >= 4 && be16(data@[2], data@[3]) != 0) ==> (r.1 matches Some(tail)
                && r.0 == Option::<ReadDiscreteInputsRequest>::None && tail@ == data@),
    {
        match parse_nonzero_body(data) {
            (Some((addr, quantity)), tail) => (Some(Self { addr, quantity }), Some(tail)),
            (None, tail) => (None, Some(tail)),
        }
    }

    /// Returns this request as a complete modbus data item request.
    ///
    /// The returned data consists of [function code, address hi, address
    /// lo, quantity hi, quantity lo].
    pub fn as_modbus_data(self) -> (r: [u8; 5])
        ensures
            r@ == enc_frame5(2, self.addr, self.quantity),
    {
        frame5(2, self.addr, self.quantity)
    }

    /// The data consists of [function code, addr hi, addr lo, quantity hi,
    /// quantity lo].
    pub fn new_as_modbus_data(addr: u16, quantity: u16) -> (r: [u8; 5])
        ensures
            r@ == enc_frame5(2, addr, quantity),
    {
        frame5(2, addr, quantity)
    }
}

/// The request to read a run of holding registers.
#[derive(Debug, Clone, Copy, Hash, PartialEq, Eq, PartialOrd, Ord, Structural)]
pub struct ReadHoldingRegistersRequest {
    /// Starting address of the read request
    pub addr: u16,
    /// Quantity of items to read
    pub quantity: u16,
}

impl ReadHoldingRegistersRequest {
    /// The Modbus function this read request corresponds to.
    pub const FUNCTION_CODE: PublicModbusFunction = PublicModbusFunction::ReadHoldingRegisters;

    pub fn new(addr: u16, quantity: u16) -> (r: Self)
        ensures
            r == (ReadHoldingRegistersRequest { addr, quantity }),
    {
        Self { addr, quantity }
    }

    /// Parses this request from modbus data, the parsed data should consist
    /// of [address hi, address lo, quantity hi, quantity lo].
    ///
    /// Where fewer than 4 bytes are present, or the quantity is zero,
    /// nothing is parsed and the whole input comes back.
    pub fn from_modbus_data(data: &[u8]) -> (r: (Option<Self>, Option<&[u8]>))
        ensures
            data@.len() >= 4 && be16(data@[2], data@[3]) != 0 ==> (r.1 matches Some(tail)
                && r.0 == Some(
                ReadHoldingRegistersRequest {
                    addr: be16(data@[0], data@[1]),
                    quantity: be16(data@[2], data@[3]),
                },
            ) && tail@ == data@.subrange(4, data@.len() as int)),
            !(data@.len() >= 4 && be16(data@[2], data@[3]) != 0) ==> (r.1 matches Some(tail)
                && r.0 == Option::<ReadHoldingRegistersRequest>::None && tail@ == data@),
    {
        match parse_nonzero_body(data) {
            (Some((addr, quantity)), tail) => (Some(Self { addr, quantity }), Some(tail)),
            (None, tail) => (None, Some(tail)),
        }
    }

    /// Returns this request as a complete modbus data item request.
    ///
    /// The returned data consists of [function code, address hi, address
    /// lo, quantity hi, quantity lo].
    pub fn as_modbus_data(self) -> (r: [u8; 5])
        ensures
            r@ == enc_frame5(3, self.addr, self.quantity),
    {
        frame5(3, self.addr, self.quantity)
    }

    /// The data consists of [function code, addr hi, addr lo, quantity hi,
    /// quantity lo].
    pub fn new_as_modbus_data(addr: u16, quantity: u16) -> (r: [u8; 5])
        ensures
            r@ == enc_frame5(3, addr, quantity),
    {
        frame5(3, addr, quantity)
    }
}

/// The request to read a run of input registers.
#[derive(Debug, Clone, Copy, Hash, PartialEq, Eq, PartialOrd, Ord, Structural)]
pub struct ReadInputRegistersRequest {
    /// Starting address of the read request
    pub addr: u16,
    /// Quantity of items to read
    pub quantity: u16,
}

impl ReadInputRegistersRequest {
    /// The Modbus function this read request corresponds to.
    pub const FUNCTION_CODE: PublicModbusFunction = PublicModbusFunction::ReadInputRegisters;

    pub fn new(addr: u16, quantity: u16) -> (r: Self)
        ensures
            r == (ReadInputRegistersRequest { addr, quantity }),
    {
        Self { addr, quantity }
    }

    /// Parses this request from modbus data, the parsed data should consist
    /// of [address hi, address lo, quantity hi, quantity lo].
    ///
    /// Where fewer than 4 bytes are present, or the quantity is zero,
    /// nothing is parsed and the whole input comes back.
    pub fn from_modbus_data(data: &[u8]) -> (r: (Option<Self>, Option<&[u8]>))
        ensures
            data@.len() >= 4 && be16(data@[2], data@[3]) != 0 ==> (r.1 matches Some(tail)
                && r.0 == Some(
                ReadInputRegistersRequest {
                    addr: be16(data@[0], data@[1]),
                    quantity: be16(data@[2], data@[3]),
                },
            ) && tail@ == data@.subrange(4, data@.len() as int)),
            !(data@.len() >= 4 && be16(data@[2], data@[3]) != 0) ==> (r.1 matches Some(tail)
                && r.0 == Option::<ReadInputRegistersRequest>::None && tail@ == data@),
    {
        match parse_nonzero_body(data) {
            (Some((addr, quantity)), tail) => (Some(Self { addr, quantity }), Some(tail)),
            (None, tail) => (None, Some(tail)),
        }
    }

    /// Returns this request as a complete modbus data item request.
    ///
    /// The returned data consists of [function code, address hi, address
    /// lo, quantity hi, quantity lo].
    pub fn as_modbus_data(self) -> (r: [u8; 5])
        ensures
            r@ == enc_frame5(4, self.addr, self.quantity),
    {
        frame5(4, self.addr, self.quantity)
    }

    /// The data consists of [function code, addr hi, addr lo, quantity hi,
    /// quantity lo].
    pub fn new_as_modbus_data(addr: u16, quantity: u16) -> (r: [u8; 5])
        ensures
            r@ == enc_frame5(4, addr, quantity),
    {
        frame5(4, addr, quantity)
    }
}

} // verus!
