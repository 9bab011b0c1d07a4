//! The four fixed-size requests that read a run of items from a device.
//!
//! Coils, discrete inputs, holding registers and input registers share one
//! byte layout: a 16-bit starting address followed by a 16-bit quantity of
//! items, 4 bytes in all, the function code already consumed by the caller.
//! The four request types differ only in which function code is attached;
//! the parsing and encoding logic is written once and shared.

use vstd::prelude::*;

use crate::error::ModbusSerializationError;
use crate::functions::PublicModbusFunction;
use crate::util::{be16, enc_addr_quantity, enc_frame5};

verus! {

/// What parsing the body of a read request out of `data` yields: the
/// starting address and the quantity of items, or the first violated rule.
///
/// Fewer than 4 bytes cannot hold the two fields; a quantity of zero asks
/// for nothing and is rejected, since this request family requires at least
/// one item be requested.
pub open spec fn spec_parse_read_body(data: Seq<u8>) -> Result<
    (u16, u16),
    ModbusSerializationError,
> {
    if data.len() < 4 {
        Err(ModbusSerializationError::UnexpectedEOF { expected: 4, got: data.len() as usize })
    } else if be16(data[2], data[3]) == 0 {
        Err(ModbusSerializationError::Invalid)
    } else {
        Ok((be16(data[0], data[1]), be16(data[2], data[3])))
    }
}

/// An input shorter than the fixed minimum of this layout is reported as
/// exactly that: the layout's minimum expected, the actual length got.
pub proof fn lemma_short_input_eof(data: Seq<u8>)
    requires
        data.len() < 4,
    ensures
        spec_parse_read_body(data) == Err::<(u16, u16), _>(
            ModbusSerializationError::UnexpectedEOF { expected: 4, got: data.len() as usize },
        ),
{
}

/// A quantity of zero is rejected on every input long enough to hold the
/// two fields, whatever the address says.
pub proof fn lemma_zero_quantity_rejected(data: Seq<u8>)
    requires
        data.len() >= 4,
        be16(data[2], data[3]) == 0,
    ensures
        spec_parse_read_body(data) == Err::<(u16, u16), _>(ModbusSerializationError::Invalid),
{
}

/// Reads the shared 4-byte body of the read-request family.
fn parse_read_body(data: &[u8]) -> (r: Result<(u16, u16, &[u8]), ModbusSerializationError>)
    ensures
        (spec_parse_read_body(data@) matches Ok((a, q)) ==> r matches Ok((addr, quantity, tail))
            && addr == a && quantity == q && tail@ == data@.subrange(4, data@.len() as int)),
        (spec_parse_read_body(data@) matches Err(e) ==> r == Err::<(u16, u16, &[u8]), _>(e)),
{
    if data.len() < 4 {
        return Err(ModbusSerializationError::UnexpectedEOF { expected: 4, got: data.len() });
    }
    let addr = 256 * (data[0] as u16) + (data[1] as u16);
    let quantity = 256 * (data[2] as u16) + (data[3] as u16);
    if quantity == 0 {
        return Err(ModbusSerializationError::Invalid);
    }
    Ok((addr, quantity, &data[4..data.len()]))
}

/// Encodes the shared 4-byte body of the read-request family.
fn read_body_data(addr: u16, quantity: u16) -> (r: [u8; 4])
    ensures
        r@ == enc_addr_quantity(addr, quantity),
{
    let r = [(addr / 256) as u8, (addr % 256) as u8, (quantity / 256) as u8, (quantity
        % 256) as u8];
    assert(r@ =~= enc_addr_quantity(addr, quantity));
    r
}

/// Writes a complete 5-byte frame, the function code included, to the front
/// of `out`, leaving everything past it as it was; a destination of fewer
/// than 5 bytes is not touched at all.
fn write_frame5(code: u8, first: u16, second: u16, out: &mut [u8]) -> (r: Result<
    (),
    ModbusSerializationError,
>)
    ensures
        old(out)@.len() >= 5 ==> (r matches Ok(()) && final(out)@ == enc_frame5(
            code,
            first,
            second,
        ) + old(out)@.subrange(5, old(out)@.len() as int)),
        old(out)@.len() < 5 ==> r == Err::<(), _>(
            ModbusSerializationError::InsufficientBuffer {
                expected: 5,
                got: old(out)@.len() as usize,
            },
        ) && final(out)@ == old(out)@,
{
    if out.len() < 5 {
        return Err(ModbusSerializationError::InsufficientBuffer { expected: 5, got: out.len() });
    }
    out[0] = code;
    out[1] = (first / 256) as u8;
    out[2] = (first % 256) as u8;
    out[3] = (second / 256) as u8;
    out[4] = (second % 256) as u8;
    assert(final(out)@ =~= enc_frame5(code, first, second) + old(out)@.subrange(
        5,
        old(out)@.len() as int,
    ));
    Ok(())
}

/// The request structure to read Coils.
///
/// This structure may be used to parse and build modbus data to read
/// quantity entities starting from addr.
#[derive(Debug, Clone, Copy, Hash, Default, PartialEq, Eq, PartialOrd, Ord, Structural)]
pub struct ReadCoils {
    pub addr: u16,
    pub quantity: u16,
}

impl ReadCoils {
    /// The Modbus function this read request corresponds to.
    pub const MODBUS_FUNCTION_CODE: PublicModbusFunction = PublicModbusFunction::ReadCoils;

    /// Create a new request to read quantity Coils.
    pub fn new(addr: u16, quantity: u16) -> (r: Self)
        ensures
            r == (ReadCoils { addr, quantity }),
    {
        Self { addr, quantity }
    }

    /// Parse this request from the given modbus data.
    ///
    /// The data should only consist out of the address and quantity as the
    /// slave id and function code will be already read through other means.
    /// The result is exactly what [spec_parse_read_body] says of the input;
    /// on success the 4 body bytes are consumed and the rest returned as
    /// tail.
    pub fn from_data(data: &[u8]) -> (r: Result<(Self, &[u8]), ModbusSerializationError>)
        ensures
            (spec_parse_read_body(data@) matches Ok((a, q)) ==> r matches Ok((req, tail))
                && req == (ReadCoils { addr: a, quantity: q })
                && tail@ == data@.subrange(4, data@.len() as int)),
            (spec_parse_read_body(data@) matches Err(e) ==> r == Err::<(Self, &[u8]), _>(e)),
    {
        match parse_read_body(data) {
            Ok((addr, quantity, tail)) => Ok((Self { addr, quantity }, tail)),
            Err(e) => Err(e),
        }
    }

    /// Create modbus data of the correct size from this request.
    ///
    /// The format of the array will be [addrhi, addrlo, quantityhi,
    /// quantitylo] in big endian.
    pub fn into_data(self) -> (r: [u8; 4])
        ensures
            r@ == enc_addr_quantity(self.addr, self.quantity),
    {
        read_body_data(self.addr, self.quantity)
    }

    /// Write this request to the slice as modbus data, the function code
    /// included.
    ///
    /// # Errors
    /// If `out` holds less than 5 bytes a
    /// [ModbusSerializationError::InsufficientBuffer] will be returned and
    /// `out` is not touched at all.
    pub fn write_to_slice(self, out: &mut [u8]) -> (r: Result<(), ModbusSerializationError>)
        ensures
            old(out)@.len() >= 5 ==> (r matches Ok(()) && final(out)@ == enc_frame5(
                1,
                self.addr,
                self.quantity,
            ) + old(out)@.subrange(5, old(out)@.len() as int)),
            old(out)@.len() < 5 ==> r == Err::<(), _>(
                ModbusSerializationError::InsufficientBuffer {
                    expected: 5,
                    got: old(out)@.len() as usize,
                },
            ) && final(out)@ == old(out)@,
    {
        write_frame5(1, self.addr, self.quantity, out)
    }
}

/// The request structure to read DiscreteInputs.
///
/// This structure may be used to parse and build modbus data to read
/// quantity entities starting from addr.
#[derive(Debug, Clone, Copy, Hash, Default, PartialEq, Eq, PartialOrd, Ord, Structural)]
pub struct ReadDiscreteInputs {
    pub addr: u16,
    pub quantity: u16,
}

impl ReadDiscreteInputs {
    /// The Modbus function this read request corresponds to.
    pub const MODBUS_FUNCTION_CODE: PublicModbusFunction =
        PublicModbusFunction::ReadDiscreteInputs;

    /// Create a new request to read quantity DiscreteInputs.
    pub fn new(addr: u16, quantity: u16) -> (r: Self)
        ensures
            r == (ReadDiscreteInputs { addr, quantity }),
    {
        Self { addr, quantity }
    }

    /// Parse this request from the given modbus data.
    ///
    /// The data should only consist out of the address and quantity as the
    /// slave id and function code will be already read through other means.
    pub fn from_data(data: &[u8]) -> (r: Result<(Self, &[u8]), ModbusSerializationError>)
        ensures
            (spec_parse_read_body(data@) matches Ok((a, q)) ==> r matches Ok((req, tail))
                && req == (ReadDiscreteInputs { addr: a, quantity: q })
                && tail@ == data@.subrange(4, data@.len() as int)),
            (spec_parse_read_body(data@) matches Err(e) ==> r == Err::<(Self, &[u8]), _>(e)),
    {
        match parse_read_body(data) {
            Ok((addr, quantity, tail)) => Ok((Self { addr, quantity }, tail)),
            Err(e) => Err(e),
        }
    }

    /// Create modbus data of the correct size from this request.
    ///
    /// The format of the array will be [addrhi, addrlo, quantityhi,
    /// quantitylo] in big endian.
    pub fn into_data(self) -> (r: [u8; 4])
        ensures
            r@ == enc_addr_quantity(self.addr, self.quantity),
    {
        read_body_data(self.addr, self.quantity)
    }

    /// Write this request to the slice as modbus data, the function code
    /// included.
    ///
    /// # Errors
    /// If `out` holds less than 5 bytes a
    /// [ModbusSerializationError::InsufficientBuffer] will be returned and
    /// `out` is not touched at all.
    pub fn write_to_slice(self, out: &mut [u8]) -> (r: Result<(), ModbusSerializationError>)
        ensures
            old(out)@.len() >= 5 ==> (r matches Ok(()) && final(out)@ == enc_frame5(
                2,
                self.addr,
                self.quantity,
            ) + old(out)@.subrange(5, old(out)@.len() as int)),
            old(out)@.len() < 5 ==> r == Err::<(), _>(
                ModbusSerializationError::InsufficientBuffer {
                    expected: 5,
                    got: old(out)@.len() as usize,
                },
            ) && final(out)@ == old(out)@,
    {
        write_frame5(2, self.addr, self.quantity, out)
    }
}

/// The request structure to read HoldingRegisters.
///
/// This structure may be used to parse and build modbus data to read
/// quantity entities starting from addr.
#[derive(Debug, Clone, Copy, Hash, Default, PartialEq, Eq, PartialOrd, Ord, Structural)]
pub struct ReadHoldingRegisters {
    pub addr: u16,
    pub quantity: u16,
}

impl ReadHoldingRegisters {
    /// The Modbus function this read request corresponds to.
    pub const MODBUS_FUNCTION_CODE: PublicModbusFunction =
        PublicModbusFunction::ReadHoldingRegisters;

    /// Create a new request to read quantity HoldingRegisters.
    pub fn new(addr: u16, quantity: u16) -> (r: Self)
        ensures
            r == (ReadHoldingRegisters { addr, quantity }),
    {
        Self { addr, quantity }
    }

    /// Parse this request from the given modbus data.
    ///
    /// The data should only consist out of the address and quantity as the
    /// slave id and function code will be already read through other means.
    pub fn from_data(data: &[u8]) -> (r: Result<(Self, &[u8]), ModbusSerializationError>)
        ensures
            (spec_parse_read_body(data@) matches Ok((a, q)) ==> r matches Ok((req, tail))
                && req == (ReadHoldingRegisters { addr: a, quantity: q })
                && tail@ == data@.subrange(4, data@.len() as int)),
            (spec_parse_read_body(data@) matches Err(e) ==> r == Err::<(Self, &[u8]), _>(e)),
    {
        match parse_read_body(data) {
            Ok((addr, quantity, tail)) => Ok((Self { addr, quantity }, tail)),
            Err(e) => Err(e),
        }
    }

    /// Create modbus data of the correct size from this request.
    ///
    /// The format of the array will be [addrhi, addrlo, quantityhi,
    /// quantitylo] in big endian.
    pub fn into_data(self) -> (r: [u8; 4])
        ensures
            r@ == enc_addr_quantity(self.addr, self.quantity),
    {
        read_body_data(self.addr, self.quantity)
    }

    /// Write this request to the slice as modbus data, the function code
    /// included.
    ///
    /// # Errors
    /// If `out` holds less than 5 bytes a
    /// [ModbusSerializationError::InsufficientBuffer] will be returned and
    /// `out` is not touched at all.
    pub fn write_to_slice(self, out: &mut [u8]) -> (r: Result<(), ModbusSerializationError>)
        ensures
            old(out)@.len() >= 5 ==> (r matches Ok(()) && final(out)@ == enc_frame5(
                3,
                self.addr,
                self.quantity,
            ) + old(out)@.subrange(5, old(out)@.len() as int)),
            old(out)@.len() < 5 ==> r == Err::<(), _>(
                ModbusSerializationError::InsufficientBuffer {
                    expected: 5,
                    got: old(out)@.len() as usize,
                },
            ) && final(out)@ == old(out)@,
    {
        write_frame5(3, self.addr, self.quantity, out)
    }
}

/// The request structure to read InputRegisters.
///
/// This structure may be used to parse and build modbus data to read
/// quantity entities starting from addr.
#[derive(Debug, Clone, Copy, Hash, Default, PartialEq, Eq, PartialOrd, Ord, Structural)]
pub struct ReadInputRegisters {
    pub addr: u16,
    pub quantity: u16,
}

impl ReadInputRegisters {
    /// The Modbus function this read request corresponds to.
    pub const MODBUS_FUNCTION_CODE: PublicModbusFunction =
        PublicModbusFunction::ReadInputRegisters;

    /// Create a new request to read quantity InputRegisters.
    pub fn new(addr: u16, quantity: u16) -> (r: Self)
        ensures
            r == (ReadInputRegisters { addr, quantity }),
    {
        Self { addr, quantity }
    }

    /// Parse this request from the given modbus data.
    ///
    /// The data should only consist out of the address and quantity as the
    /// slave id and function code will be already read through other means.
    pub fn from_data(data: &[u8]) -> (r: Result<(Self, &[u8]), ModbusSerializationError>)
        ensures
            (spec_parse_read_body(data@) matches Ok((a, q)) ==> r matches Ok((req, tail))
                && req == (ReadInputRegisters { addr: a, quantity: q })
                && tail@ == data@.subrange(4, data@.len() as int)),
            (spec_parse_read_body(data@) matches Err(e) ==> r == Err::<(Self, &[u8]), _>(e)),
    {
        match parse_read_body(data) {
            Ok((addr, quantity, tail)) => Ok((Self { addr, quantity }, tail)),
            Err(e) => Err(e),
        }
    }

    /// Create modbus data of the correct size from this request.
    ///
    /// The format of the array will be [addrhi, addrlo, quantityhi,
    /// quantitylo] in big endian.
    pub fn into_data(self) -> (r: [u8; 4])
        ensures
            r@ == enc_addr_quantity(self.addr, self.quantity),
    {
        read_body_data(self.addr, self.quantity)
    }

    /// Write this request to the slice as modbus data, the function code
    /// included.
    ///
    /// # Errors
    /// If `out` holds less than 5 bytes a
    /// [ModbusSerializationError::InsufficientBuffer] will be returned and
    /// `out` is not touched at all.
    pub fn write_to_slice(self, out: &mut [u8]) -> (r: Result<(), ModbusSerializationError>)
        ensures
            old(out)@.len() >= 5 ==> (r matches Ok(()) && final(out)@ == enc_frame5(
                4,
                self.addr,
                self.quantity,
            ) + old(out)@.subrange(5, old(out)@.len() as int)),
            old(out)@.len() < 5 ==> r == Err::<(), _>(
                ModbusSerializationError::InsufficientBuffer {
                    expected: 5,
                    got: old(out)@.len() as usize,
                },
            ) && final(out)@ == old(out)@,
    {
        write_frame5(4, self.addr, self.quantity, out)
    }
}

} // verus!
