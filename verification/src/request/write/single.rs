//! The two fixed-size requests that write one item, reported through
//! options.
//!
//! Both share the layout [address, value], 4 bytes after the function code.
//! For a coil the value must be one of the two reserved two-state wire
//! encodings; for a register any 16-bit value is allowed.

use vstd::prelude::*;

use crate::function::PublicModbusFunction;
use crate::util::{be16, enc_frame5};

verus! {

/// A request to write a single coil on or off.
pub struct WriteSingleCoilRequest {
    pub addr: u16,
    pub state: bool,
}

impl WriteSingleCoilRequest {
    /// The Modbus function this request corresponds to.
    pub const FUNCTION_CODE: PublicModbusFunction = PublicModbusFunction::WriteSingleCoil;

    pub fn new(addr: u16, state: bool) -> (r: Self)
        ensures
            r.addr == addr,
            r.state == state,
    {
        Self { addr, state }
    }

    /// Parses this request from modbus data, the parsed data must consist
    /// of [address hi, address lo, state hi, state lo].
    ///
    /// Nothing is parsed where fewer than 4 bytes are present or the state
    /// field holds anything but the two reserved two-state wire values.
    pub fn from_modbus_data(data: &[u8]) -> (r: Option<Self>)
        ensures
            data@.len() >= 4 && (be16(data@[2], data@[3]) == 0 || be16(data@[2], data@[3])
                == 0xFF00) ==> (r matches Some(req) && req.addr == be16(data@[0], data@[1])
                && req.state == (be16(data@[2], data@[3]) == 0xFF00)),
            !(data@.len() >= 4 && (be16(data@[2], data@[3]) == 0 || be16(data@[2], data@[3])
                == 0xFF00)) ==> r is None,
    {
        if data.len() < 4 {
            return None;
        }
        let addr = 256 * (data[0] as u16) + (data[1] as u16);
        let state = 256 * (data[2] as u16) + (data[3] as u16);
        Self::from_addr_state(addr, state)
    }

    /// Builds this request from an address and a raw state field.
    ///
    /// Nothing is built where the state field holds anything but the two
    /// reserved two-state wire values.
    pub fn from_addr_state(addr: u16, state: u16) -> (r: Option<Self>)
        ensures
            state == 0 || state == 0xFF00 ==> (r matches Some(req) && req.addr == addr
                && req.state == (state == 0xFF00)),
            state != 0 && state != 0xFF00 ==> r is None,
    {
        if state != 0 && state != 0xFF00 {
            None
        } else {
            Some(Self { addr, state: state != 0 })
        }
    }

    /// Returns this request as a complete modbus data item request.
    ///
    /// The returned data consists of [function code, address hi, address
    /// lo, state hi, state lo].
    pub fn as_modbus_data(self) -> (r: [u8; 5])
        ensures
            r@ == enc_frame5(
                5,
                self.addr,
                if self.state {
                    0xFF00u16
                } else {
                    0u16
                },
            ),
    {
        Self::new_as_modbus_data(self.addr, self.state)
    }

    /// The data consists of [function code, addr hi, addr lo, state hi,
    /// state lo].
    pub fn new_as_modbus_data(addr: u16, state: bool) -> (r: [u8; 5])
        ensures
            r@ == enc_frame5(
                5,
                addr,
                if state {
                    0xFF00u16
                } else {
                    0u16
                },
            ),
    {
        let r = [
            5u8,
            (addr / 256) as u8,
            (addr % 256) as u8,
            if state {
                0xFF
            } else {
                0x00
            },
            0u8,
        ];
        assert(r@ =~= enc_frame5(
            5,
            addr,
            if state {
                0xFF00u16
            } else {
                0u16
            },
        ));
        r
    }
}

/// A request to write one 16-bit value into a single register.
pub struct WriteSingleRegisterRequest {
    pub addr: u16,
    pub val: u16,
}

impl WriteSingleRegisterRequest {
    /// The Modbus function this request corresponds to.
    pub const FUNCTION_CODE: PublicModbusFunction = PublicModbusFunction::WriteSingleRegister;

    pub fn new(addr: u16, val: u16) -> (r: Self)
        ensures
            r.addr == addr,
            r.val == val,
    {
        Self { addr, val }
    }

    /// Parses this request from modbus data, the parsed data must consist
    /// of [address hi, address lo, value hi, value lo].
    ///
    /// Nothing is parsed where fewer than 4 bytes are present; the value
    /// itself is unrestricted.
    pub fn from_modbus_data(data: &[u8]) -> (r: Option<Self>)
        ensures
            data@.len() >= 4 ==> (r matches Some(req) && req.addr == be16(data@[0], data@[1])
                && req.val == be16(data@[2], data@[3])),
            data@.len() < 4 ==> r is None,
    {
        if data.len() < 4 {
            return None;
        }
        let addr = 256 * (data[0] as u16) + (data[1] as u16);
        let val = 256 * (data[2] as u16) + (data[3] as u16);
        Some(Self { addr, val })
    }

    /// Returns this request as a complete modbus data item request.
    ///
    /// The returned data consists of [function code, address hi, address
    /// lo, value hi, value lo].
    pub fn as_modbus_data(self) -> (r: [u8; 5])
        ensures
            r@ == enc_frame5(6, self.addr, self.val),
    {
        Self::new_as_modbus_data(self.addr, self.val)
    }

    /// The data consists of [function code, addr hi, addr lo, value hi,
    /// value lo].
    pub fn new_as_modbus_data(addr: u16, val: u16) -> (r: [u8; 5])
        ensures
            r@ == enc_frame5(6, addr, val),
    {
        let r = [6u8, (addr / 256) as u8, (addr % 256) as u8, (val / 256) as u8, (val
            % 256) as u8];
        assert(r@ =~= enc_frame5(6, addr, val));
        r
    }
}

} // verus!
