//! Primitive readers and writers for the fields every request is built from.
//!
//! All multi-byte fields of the protocol are big endian with the most
//! significant byte first. Readers hand back the decoded value together with
//! the unconsumed remainder of the input, so parsers can be chained without
//! copying. Writers fail with [ModbusSerializationError::InsufficientBuffer]
//! before touching a destination that is too small.

use vstd::prelude::*;

use crate::error::ModbusSerializationError;

pub mod registers;

pub use registers::{register_to_native_endian, registers_from_modbus_data};

verus! {

/// The value of a big-endian 16-bit field made of the bytes `hi` and `lo`.
pub open spec fn be16(hi: u8, lo: u8) -> u16 {
    (256 * (hi as int) + (lo as int)) as u16
}

/// The more significant byte of `word` on the wire.
pub open spec fn be16_hi(word: u16) -> u8 {
    (word / 256) as u8
}

/// The less significant byte of `word` on the wire.
pub open spec fn be16_lo(word: u16) -> u8 {
    (word % 256) as u8
}

/// The two bytes that represent `word` on the wire, most significant first.
pub open spec fn enc_u16(word: u16) -> Seq<u8> {
    seq![be16_hi(word), be16_lo(word)]
}

/// The four bytes that represent an address followed by a quantity.
pub open spec fn enc_addr_quantity(addr: u16, quantity: u16) -> Seq<u8> {
    enc_u16(addr) + enc_u16(quantity)
}

/// The five bytes of a fixed-size request frame: a function code followed
/// by two 16-bit fields.
pub open spec fn enc_frame5(code: u8, first: u16, second: u16) -> Seq<u8> {
    seq![code] + enc_u16(first) + enc_u16(second)
}

/// Assembling a field value out of its own wire bytes gives the value back.
pub proof fn lemma_be16_of_enc(word: u16)
    ensures
        be16(be16_hi(word), be16_lo(word)) == word,
{
}

/// Reads an u16 from the given modbus data. The data is considered to be big
/// endian with msB first.
///
/// On success exactly 2 bytes are consumed and the rest is returned as tail;
/// on failure nothing is consumed.
///
/// # Errors
/// If the data slice contains less than 2 bytes a
/// [ModbusSerializationError::UnexpectedEOF] will be returned with its
/// expected field set to 2 and its got field set to data.len().
pub fn read_u16(data: &[u8]) -> (r: Result<(u16, &[u8]), ModbusSerializationError>)
    ensures
        data@.len() >= 2 ==> (r matches Ok((word, tail))
            && word == be16(data@[0], data@[1])
            && tail@ == data@.subrange(2, data@.len() as int)),
        data@.len() < 2 ==> r == Err::<(u16, &[u8]), _>(
            ModbusSerializationError::UnexpectedEOF { expected: 2, got: data@.len() as usize },
        ),
{
    if data.len() < 2 {
        Err(ModbusSerializationError::UnexpectedEOF { expected: 2, got: data.len() })
    } else {
        let word = 256 * (data[0] as u16) + (data[1] as u16);
        Ok((word, &data[2..data.len()]))
    }
}

/// Interprets the data as an address and a quantity. They are returned in
/// this order, followed by the data left in the slice.
///
/// # Errors
/// If the data slice contains less than 4 bytes a
/// [ModbusSerializationError::UnexpectedEOF] will be returned with its
/// expected field set to 4 and its got field set to data.len().
pub fn read_addr_quantity(data: &[u8]) -> (r: Result<
    (u16, u16, &[u8]),
    ModbusSerializationError,
>)
    ensures
        data@.len() >= 4 ==> (r matches Ok((addr, quantity, tail))
            && addr == be16(data@[0], data@[1])
            && quantity == be16(data@[2], data@[3])
            && tail@ == data@.subrange(4, data@.len() as int)),
        data@.len() < 4 ==> r == Err::<(u16, u16, &[u8]), _>(
            ModbusSerializationError::UnexpectedEOF { expected: 4, got: data@.len() as usize },
        ),
{
    if data.len() < 4 {
        return Err(ModbusSerializationError::UnexpectedEOF { expected: 4, got: data.len() });
    }

    let addr = 256 * (data[0] as u16) + (data[1] as u16);
    let quantity = 256 * (data[2] as u16) + (data[3] as u16);
    Ok((addr, quantity, &data[4..data.len()]))
}

/// Writes an address followed by a quantity to the front of `out` as big
/// endian data.
///
/// On success exactly 4 bytes are written and the rest of `out` is left as it
/// was; on failure `out` is not touched at all.
///
/// # Errors
/// If `out` holds less than 4 bytes a
/// [ModbusSerializationError::InsufficientBuffer] will be returned with its
/// expected field set to 4 and its got field set to out.len().
pub fn write_addr_quantity(addr: u16, quantity: u16, out: &mut [u8]) -> (r: Result<
    (),
    ModbusSerializationError,
>)
    ensures
        old(out)@.len() >= 4 ==> (r matches Ok(())
            && final(out)@ == enc_addr_quantity(addr, quantity)
                + old(out)@.subrange(4, old(out)@.len() as int)),
        old(out)@.len() < 4 ==> r == Err::<(), _>(
            ModbusSerializationError::InsufficientBuffer {
                expected: 4,
                got: old(out)@.len() as usize,
            },
        ) && final(out)@ == old(out)@,
{
    if out.len() < 4 {
        return Err(ModbusSerializationError::InsufficientBuffer { expected: 4, got: out.len() });
    }

    out[0] = (addr / 256) as u8;
    out[1] = (addr % 256) as u8;
    out[2] = (quantity / 256) as u8;
    out[3] = (quantity % 256) as u8;
    assert(final(out)@ =~= enc_addr_quantity(addr, quantity)
        + old(out)@.subrange(4, old(out)@.len() as int));
    Ok(())
}

/// Reads the quantity field at the front of the body of a write request.
///
/// The leading 16-bit field is decoded and the data past it returned as tail.
/// If fewer than 3 bytes are present nothing is consumed and the whole input
/// comes back as tail, so a complete body can be retried later.
pub fn get_write_quantity(data: &[u8]) -> (r: (Option<u16>, &[u8]))
    ensures
        data@.len() >= 3 ==> r.0 == Some(be16(data@[0], data@[1]))
            && r.1@ == data@.subrange(2, data@.len() as int),
        data@.len() < 3 ==> r.0 == Option::<u16>::None && r.1@ == data@,
{
    if data.len() < 3 {
        (None, data)
    } else {
        let word = 256 * (data[0] as u16) + (data[1] as u16);
        (Some(word), &data[2..data.len()])
    }
}

/// Reads the starting address at the front of the body of a write request.
///
/// The leading 16-bit field is decoded and the data past it returned as tail.
/// If fewer than 3 bytes are present nothing is consumed and the whole input
/// comes back as tail.
pub fn get_start_addr(data: &[u8]) -> (r: (Option<u16>, &[u8]))
    ensures
        data@.len() >= 3 ==> r.0 == Some(be16(data@[0], data@[1]))
            && r.1@ == data@.subrange(2, data@.len() as int),
        data@.len() < 3 ==> r.0 == Option::<u16>::None && r.1@ == data@,
{
    if data.len() < 3 {
        (None, data)
    } else {
        let word = 256 * (data[0] as u16) + (data[1] as u16);
        (Some(word), &data[2..data.len()])
    }
}

/// The composite primitive most requests start with: a 16-bit address
/// followed by a 16-bit count of items.
#[derive(Clone, Copy, Hash, Debug, PartialEq, Eq, PartialOrd, Ord, Structural)]
pub struct AddrQuantity {
    pub addr: u16,
    pub quantity: u16,
}

impl AddrQuantity {
    /// How many bytes an encoded address and quantity pair occupies.
    pub const SIZE: u16 = 4;

    /// Reads an address and quantity pair from the front of `data`.
    ///
    /// On success the pair and the data past its 4 bytes are returned; if
    /// fewer than 4 bytes are present nothing is consumed and the whole
    /// input comes back as tail.
    pub fn from_modbus_data(data: &[u8]) -> (r: (Option<AddrQuantity>, &[u8]))
        ensures
            data@.len() >= 4 ==> r.0 == Some(
                AddrQuantity { addr: be16(data@[0], data@[1]), quantity: be16(data@[2], data@[3]) },
            ) && r.1@ == data@.subrange(4, data@.len() as int),
            data@.len() < 4 ==> r.0 == Option::<AddrQuantity>::None && r.1@ == data@,
    {
        if data.len() < 4 {
            (None, data)
        } else {
            let addr = 256 * (data[0] as u16) + (data[1] as u16);
            let quantity = 256 * (data[2] as u16) + (data[3] as u16);
            (Some(AddrQuantity { addr, quantity }), &data[4..data.len()])
        }
    }

    /// Writes this pair to the front of `out_data` as big endian data,
    /// leaving everything past its 4 bytes as it was.
    ///
    /// # Panics
    /// The destination must hold at least 4 bytes.
    pub fn write_to_modbus_data(self, out_data: &mut [u8])
        requires
            old(out_data)@.len() >= 4,
        ensures
            final(out_data)@ == enc_addr_quantity(self.addr, self.quantity)
                + old(out_data)@.subrange(4, old(out_data)@.len() as int),
    {
        out_data[0] = (self.addr / 256) as u8;
        out_data[1] = (self.addr % 256) as u8;
        out_data[2] = (self.quantity / 256) as u8;
        out_data[3] = (self.quantity % 256) as u8;
        assert(final(out_data)@ =~= enc_addr_quantity(self.addr, self.quantity)
            + old(out_data)@.subrange(4, old(out_data)@.len() as int));
    }
}

} // verus!
