//! Decoding runs of register words out of raw request payloads.
//!
//! A register occupies two bytes on the wire, most significant byte first.
//! Nothing here reinterprets a byte buffer in place: every word is decoded
//! explicitly, so alignment and byte order of the machine never matter.

use vstd::prelude::*;

use super::be16;

verus! {

/// Decodes `quantity` register words out of `modbus_data` into
/// `out_registers`, most significant byte first.
///
/// Entries of `out_registers` past `quantity` are left as they were.
///
/// # Panics
/// `out_registers` must hold at least `quantity` words and `modbus_data` at
/// least `2 * quantity` bytes.
pub fn registers_from_modbus_data(quantity: u16, modbus_data: &[u8], out_registers: &mut [u16])
    requires
        old(out_registers)@.len() >= quantity,
        modbus_data@.len() >= 2 * quantity,
    ensures
        final(out_registers)@.len() == old(out_registers)@.len(),
        forall|j: int|
            0 <= j < quantity ==> final(out_registers)@[j] == be16(
                modbus_data@[2 * j],
                modbus_data@[2 * j + 1],
            ),
        forall|j: int|
            quantity <= j < old(out_registers)@.len() ==> final(out_registers)@[j] == old(
                out_registers,
            )@[j],
{
    let mut i: usize = 0;
    while i < quantity as usize
        invariant
            i <= quantity,
            out_registers@.len() == old(out_registers)@.len(),
            out_registers@.len() >= quantity,
            modbus_data@.len() >= 2 * quantity,
            forall|j: int|
                0 <= j < i ==> out_registers@[j] == be16(
                    modbus_data@[2 * j],
                    modbus_data@[2 * j + 1],
                ),
            forall|j: int|
                i <= j < old(out_registers)@.len() ==> out_registers@[j] == old(out_registers)@[j],
        decreases quantity - i,
    {
        out_registers[i] = 256 * (modbus_data[2 * i] as u16) + (modbus_data[2 * i + 1] as u16);
        i = i + 1;
    }
}

/// Swaps a register word whose two wire bytes were packed in reverse order
/// into its numeric value.
///
/// The inverse of itself: applying it twice gives the word back.
pub fn register_to_native_endian(register: u16) -> (r: u16)
    ensures
        r == 256 * (register % 256) + register / 256,
{
    256 * (register % 256) + register / 256
}

} // verus!
