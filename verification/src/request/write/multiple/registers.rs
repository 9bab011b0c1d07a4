//! A write-multiple-registers request over already decoded register words.
//!
//! Where the borrowed view of [crate::write::multiple_registers] keeps raw
//! payload bytes, this request holds the registers as native 16-bit words;
//! every word is decoded and encoded explicitly, most significant byte
//! first, so the byte order of the machine never matters.

use vstd::prelude::*;

use crate::util::registers::registers_from_modbus_data;
use crate::util::{be16, be16_hi, be16_lo, enc_u16};

verus! {

/// The bytes that encode the register words `words` on the wire: every
/// word as two bytes, most significant first, in order.
pub open spec fn enc_words(words: Seq<u16>) -> Seq<u8> {
    Seq::new(
        (2 * words.len()) as nat,
        |i: int|
            if i % 2 == 0 {
                be16_hi(words[i / 2])
            } else {
                be16_lo(words[i / 2])
            },
    )
}

/// The bytes that encode a write of the register words `words` at `addr`:
/// the function code, the address, the word quantity, the byte count and
/// the encoded words.
pub open spec fn spec_encode_words(addr: u16, words: Seq<u16>) -> Seq<u8> {
    seq![16u8] + enc_u16(addr) + enc_u16(words.len() as u16) + seq![(2 * words.len()) as u8]
        + enc_words(words)
}

/// A request to write a run of register words starting at an address.
pub struct WriteMultipleRegistersRequest<'a> {
    pub addr: u16,
    pub register_values: &'a [u16],
}

impl<'a> WriteMultipleRegistersRequest<'a> {
    pub fn new(addr: u16, register_values: &'a [u16]) -> (r: Self)
        ensures
            r.addr == addr,
            r.register_values@ == register_values@,
    {
        Self { register_values, addr }
    }

    /// Builds this request by decoding `quantity` register words out of
    /// `modbus_data` into the caller-provided `out_registers`, which the
    /// request then borrows whole.
    ///
    /// # Panics
    /// `out_registers` must hold at least `quantity` words and
    /// `modbus_data` at least `2 * quantity` bytes.
    pub fn from_modbus_data(
        addr: u16,
        quantity: u16,
        modbus_data: &'a [u8],
        out_registers: &'a mut [u16],
    ) -> (r: Self)
        requires
            old(out_registers)@.len() >= quantity,
            modbus_data@.len() >= 2 * quantity,
        ensures
            r.addr == addr,
            r.register_values@.len() == old(out_registers)@.len(),
            forall|j: int|
                0 <= j < quantity ==> r.register_values@[j] == be16(
                    modbus_data@[2 * j],
                    modbus_data@[2 * j + 1],
                ),
            forall|j: int|
                quantity <= j < old(out_registers)@.len() ==> r.register_values@[j] == old(
                    out_registers,
                )@[j],
    {
        registers_from_modbus_data(quantity, modbus_data, out_registers);
        Self { addr, register_values: out_registers }
    }

    /// Writes this request to the front of `out_data` as a complete frame,
    /// the function code included, leaving everything past it as it was.
    ///
    /// # Panics
    /// At most 123 registers can be written, and `out_data` must hold the
    /// whole frame of `6 + 2 * register count` bytes.
    pub fn as_modbus_data(&self, out_data: &mut [u8])
        requires
            self.register_values@.len() <= 123,
            old(out_data)@.len() >= 6 + 2 * self.register_values@.len(),
        ensures
            final(out_data)@ == spec_encode_words(self.addr, self.register_values@) + old(
                out_data,
            )@.subrange(6 + 2 * self.register_values@.len() as int, old(out_data)@.len() as int),
    {
        Self::new_as_modbus_data(self.addr, self.register_values, out_data)
    }

    /// Writes the frame of a write of `register_values` at `addr` to the
    /// front of `out_data`, the function code included, leaving everything
    /// past it as it was.
    ///
    /// # Panics
    /// At most 123 registers can be written, and `out_data` must hold the
    /// whole frame of `6 + 2 * register count` bytes.
    pub fn new_as_modbus_data(addr: u16, register_values: &[u16], out_data: &mut [u8])
        requires
            register_values@.len() <= 123,
            old(out_data)@.len() >= 6 + 2 * register_values@.len(),
        ensures
            final(out_data)@ == spec_encode_words(addr, register_values@) + old(
                out_data,
            )@.subrange(6 + 2 * register_values@.len() as int, old(out_data)@.len() as int),
    {
        let n = register_values.len();
        out_data[0] = 16;
        out_data[1] = (addr / 256) as u8;
        out_data[2] = (addr % 256) as u8;
        let quantity = n as u16;
        out_data[3] = (quantity / 256) as u8;
        out_data[4] = (quantity % 256) as u8;
        out_data[5] = (2 * n) as u8;

        let mut i: usize = 0;
        while i < n
            invariant
                i <= n,
                n <= 123,
                n == register_values@.len(),
                out_data@.len() == old(out_data)@.len(),
                out_data@.len() >= 6 + 2 * n,
                forall|j: int|
                    0 <= j < 6 ==> out_data@[j] == spec_encode_words(addr, register_values@)[j],
                forall|j: int|
                    0 <= j < 2 * i ==> out_data@[6 + j] == enc_words(register_values@)[j],
                forall|j: int|
                    6 + 2 * i <= j < out_data@.len() ==> out_data@[j] == old(out_data)@[j],
            decreases n - i,
        {
            let word = register_values[i];
            out_data[6 + 2 * i] = (word / 256) as u8;
            out_data[6 + 2 * i + 1] = (word % 256) as u8;
            i = i + 1;
        }

        assert(final(out_data)@ =~= spec_encode_words(addr, register_values@) + old(
            out_data,
        )@.subrange(6 + 2 * register_values@.len() as int, old(out_data)@.len() as int));
    }
}

} // verus!
