//! The variable-length request that writes a run of registers at once.
//!
//! Its body is self describing: an address, a register quantity, a byte
//! count and that many payload bytes. The quantity and the byte count both
//! describe the payload length, so parsing checks that they agree before
//! anything else is done with the payload, and the protocol bounds the
//! quantity and the touched address range besides.

use vstd::prelude::*;

use crate::error::ModbusSerializationError;
use crate::functions::PublicModbusFunction;
use crate::registerslice::RegisterSlice;
use crate::util::{be16, enc_u16};

verus! {

/// What parsing the body of a write-multiple-registers request out of
/// `data` yields: the starting address and the raw payload bytes, or the
/// first violated rule.
///
/// The rules, in the order they are checked: at least 7 bytes of input, the
/// byte count field halved must equal the quantity field, the declared
/// payload must be present in full, the payload must describe whole
/// registers, at least one and at most 123 of them, and the last register
/// written must still lie inside the 16-bit address space.
pub open spec fn spec_parse(data: Seq<u8>) -> Result<(u16, Seq<u8>), ModbusSerializationError> {
    if data.len() < 7 {
        Err(ModbusSerializationError::UnexpectedEOF { expected: 7, got: data.len() as usize })
    } else {
        let addr = be16(data[0], data[1]);
        let quantity = be16(data[2], data[3]);
        let nbytes = data[4] as int;
        if nbytes / 2 != quantity {
            Err(ModbusSerializationError::Ambivalent)
        } else if data.len() < nbytes + 5 {
            Err(
                ModbusSerializationError::UnexpectedEOF {
                    expected: (nbytes + 5) as usize,
                    got: data.len() as usize,
                },
            )
        } else if nbytes % 2 != 0 {
            Err(ModbusSerializationError::Invalid)
        } else if nbytes == 0 {
            Err(ModbusSerializationError::Invalid)
        } else if nbytes / 2 > 123 {
            Err(ModbusSerializationError::TooLarge)
        } else if addr + nbytes / 2 > 0x10000 {
            Err(ModbusSerializationError::Overflow)
        } else {
            Ok((addr, data.subrange(5, 5 + nbytes)))
        }
    }
}

/// The bytes that encode a write of the registers described by `regs` at
/// `addr`: the function code, the address, the register quantity, the byte
/// count and the payload bytes verbatim.
pub open spec fn spec_encode(addr: u16, regs: Seq<u8>) -> Seq<u8> {
    seq![16u8] + enc_u16(addr) + enc_u16((regs.len() / 2) as u16) + seq![regs.len() as u8] + regs
}

/// A request to write a run of registers starting at an address.
///
/// The payload stays borrowed through a [RegisterSlice]; nothing is copied.
/// Both constructors enforce the protocol bounds, so every value of this
/// type describes a request that can be encoded back to valid bytes.
#[derive(Debug, PartialEq, Eq, PartialOrd, Ord, Hash, Clone, Copy)]
pub struct WriteMultipleRegisters<'a> {
    addr: u16,
    registers: RegisterSlice<'a>,
}

impl<'a> WriteMultipleRegisters<'a> {
    /// The Modbus function this request corresponds to.
    pub const MODBUS_FUNCTION_CODE: PublicModbusFunction =
        PublicModbusFunction::WriteMultipleRegisters;

    /// The minimum size required for a request like Self.
    ///
    /// Normally the minimum size of a [WriteMultipleRegisters] request
    /// consists out of 8 bytes: [HEADER_SIZE](WriteMultipleRegisters::HEADER_SIZE)
    /// + at least one register (2 byte) but for input data the function code
    /// (1 byte) will already be read.
    pub const MIN_INPUT_SIZE: usize = 7;

    /// The header size of a [WriteMultipleRegisters] request.
    ///
    /// The header consists of: function code (1 byte) + starting address
    /// (2 byte) + quantity (2 byte) + number of following bytes (1 byte).
    pub const HEADER_SIZE: usize = 6;

    /// The minimum size required to write Self to a slice.
    ///
    /// Same as [MIN_INPUT_SIZE](WriteMultipleRegisters::MIN_INPUT_SIZE) just
    /// that it also contains the function code.
    pub const MIN_OUTPUT_SIZE: usize = 8;

    /// The starting address of this request.
    pub closed spec fn spec_addr(self) -> u16 {
        self.addr
    }

    /// The view of the registers this request writes.
    pub closed spec fn spec_registers(self) -> RegisterSlice<'a> {
        self.registers
    }

    /// Every value of this type keeps the protocol bounds: whole registers,
    /// between 1 and 123 of them, the last of them still inside the 16-bit
    /// address space.
    pub open spec fn wf(self) -> bool {
        &&& self.spec_registers().wf()
        &&& 1 <= self.spec_registers().spec_words().len() <= 123
        &&& self.spec_addr() + self.spec_registers().spec_words().len() <= 0x10000
    }

    /// Create a new request to write multiple registers.
    ///
    /// # Errors
    /// It is not allowed to write 0 or more than 123 registers. If you try
    /// to write 0 [ModbusSerializationError::Invalid] will be returned.
    /// If the len of registers exceeds 123 [ModbusSerializationError::TooLarge]
    /// will be returned. [ModbusSerializationError::Overflow] will be
    /// returned if the last register written would lie past the 0xFFFF
    /// address boundary, that is if addr + registers.len() exceeds 0x10000.
    pub fn new(addr: u16, registers: RegisterSlice<'a>) -> (r: Result<
        Self,
        ModbusSerializationError,
    >)
        ensures
            registers.spec_words().len() == 0 ==> r == Err::<Self, _>(
                ModbusSerializationError::Invalid,
            ),
            registers.spec_words().len() > 123 ==> r == Err::<Self, _>(
                ModbusSerializationError::TooLarge,
            ),
            1 <= registers.spec_words().len() <= 123 && addr + registers.spec_words().len()
                > 0x10000 ==> r == Err::<Self, _>(ModbusSerializationError::Overflow),
            1 <= registers.spec_words().len() <= 123 && addr + registers.spec_words().len()
                <= 0x10000 ==> (r matches Ok(w) && w.spec_addr() == addr && w.spec_registers()
                == registers),
    {
        let n = registers.len();
        if n == 0 {
            Err(ModbusSerializationError::Invalid)
        } else if n > 123 {
            Err(ModbusSerializationError::TooLarge)
        } else if addr as usize + n > 0x10000 {
            Err(ModbusSerializationError::Overflow)
        } else {
            Ok(Self { addr, registers })
        }
    }

    /// The starting address of this request.
    pub fn addr(self) -> (r: u16)
        ensures
            r == self.spec_addr(),
    {
        self.addr
    }

    /// The view of the registers this request writes.
    pub fn registers(self) -> (r: RegisterSlice<'a>)
        ensures
            r == self.spec_registers(),
    {
        self.registers
    }

    /// Parses this request from the body of a request whose function code
    /// was already read.
    ///
    /// The result is exactly what [spec_parse] says of the input bytes; on
    /// success the payload is borrowed out of `data` without a copy.
    pub fn from_data(data: &'a [u8]) -> (r: Result<Self, ModbusSerializationError>)
        ensures
            (spec_parse(data@) matches Ok((a, regs)) ==> r matches Ok(w) && w.spec_addr() == a
                && w.spec_registers().spec_bytes() == regs && w.wf()),
            (spec_parse(data@) matches Err(e) ==> r == Err::<Self, _>(e)),
    {
        if data.len() < Self::MIN_INPUT_SIZE {
            return Err(
                ModbusSerializationError::UnexpectedEOF {
                    expected: Self::MIN_INPUT_SIZE,
                    got: data.len(),
                },
            );
        }

        let addr = 256 * (data[0] as u16) + (data[1] as u16);
        let quantity = 256 * (data[2] as u16) + (data[3] as u16);
        let nbytes = data[4] as usize;

        if nbytes / 2 != quantity as usize {
            return Err(ModbusSerializationError::Ambivalent);
        }

        if data.len() < nbytes + 5 {
            return Err(
                ModbusSerializationError::UnexpectedEOF {
                    // The function code byte is not part of the input, so the
                    // shortfall is reported relative to the remaining frame.
                    expected: nbytes + Self::HEADER_SIZE - 1,
                    got: data.len(),
                },
            );
        }

        let payload = &data[5..5 + nbytes];
        let registers = match RegisterSlice::new(payload) {
            Ok(registers) => registers,
            Err(e) => {
                return Err(e);
            },
        };
        Self::new(addr, registers)
    }

    /// Get how many bytes this request needs to be encoded.
    pub fn data_size(self) -> (r: usize)
        requires
            self.spec_registers().spec_bytes().len() + 6 <= usize::MAX,
        ensures
            r == self.spec_registers().spec_bytes().len() + 6,
    {
        self.registers.bytes_len() + Self::HEADER_SIZE
    }

    /// Writes this request to the front of `out` as a complete frame, the
    /// function code included, leaving everything past the frame as it was.
    ///
    /// # Errors
    /// If `out` cannot hold the whole frame a
    /// [ModbusSerializationError::InsufficientBuffer] will be returned with
    /// its expected field set to [data_size](Self::data_size) and its got
    /// field set to out.len(), and `out` is not touched at all.
    pub fn write_to_slice(self, out: &mut [u8]) -> (r: Result<(), ModbusSerializationError>)
        requires
            self.wf(),
        ensures
            old(out)@.len() >= self.spec_registers().spec_bytes().len() + 6 ==> (r matches Ok(())
                && final(out)@ == spec_encode(self.spec_addr(), self.spec_registers().spec_bytes())
                + old(out)@.subrange(
                self.spec_registers().spec_bytes().len() + 6int,
                old(out)@.len() as int,
            )),
            old(out)@.len() < self.spec_registers().spec_bytes().len() + 6 ==> r == Err::<(), _>(
                ModbusSerializationError::InsufficientBuffer {
                    expected: (self.spec_registers().spec_bytes().len() + 6) as usize,
                    got: old(out)@.len() as usize,
                },
            ) && final(out)@ == old(out)@,
    {
        let data_size = self.data_size();

        if out.len() < data_size {
            return Err(
                ModbusSerializationError::InsufficientBuffer {
                    expected: data_size,
                    got: out.len(),
                },
            );
        }

        out[0] = 16;
        out[1] = (self.addr / 256) as u8;
        out[2] = (self.addr % 256) as u8;
        let quantity = self.registers.len() as u16;
        out[3] = (quantity / 256) as u8;
        out[4] = (quantity % 256) as u8;
        let bytes = self.registers.bytes();
        let nbytes = bytes.len();
        out[5] = nbytes as u8;

        let mut i: usize = 0;
        while i < nbytes
            invariant
                i <= nbytes,
                nbytes + 6 <= usize::MAX,
                nbytes == bytes@.len(),
                out@.len() == old(out)@.len(),
                out@.len() >= nbytes + 6,
                forall|j: int| 0 <= j < 6 ==> out@[j] == spec_encode(self.spec_addr(), bytes@)[j],
                forall|j: int| 0 <= j < i ==> out@[6 + j] == bytes@[j],
                forall|j: int| 6 + i <= j < out@.len() ==> out@[j] == old(out)@[j],
                spec_encode(self.spec_addr(), bytes@).len() == nbytes + 6,
            decreases nbytes - i,
        {
            out[6 + i] = bytes[i];
            i = i + 1;
        }

        assert(final(out)@ =~= spec_encode(self.spec_addr(), self.spec_registers().spec_bytes())
            + old(out)@.subrange(
            self.spec_registers().spec_bytes().len() + 6int,
            old(out)@.len() as int,
        ));
        Ok(())
    }
}

/// An input shorter than the fixed minimum of this layout is reported as
/// exactly that: the layout's minimum expected, the actual length got.
pub proof fn lemma_short_input_eof(data: Seq<u8>)
    requires
        data.len() < 7,
    ensures
        spec_parse(data) == Err::<(u16, Seq<u8>), _>(
            ModbusSerializationError::UnexpectedEOF { expected: 7, got: data.len() as usize },
        ),
{
}

/// Whenever the two length-describing fields contradict each other the
/// parse is ambivalent, whether or not the declared payload is present:
/// the check comes before any attempt to slice the payload.
pub proof fn lemma_length_fields_must_agree(data: Seq<u8>)
    requires
        data.len() >= 7,
        (data[4] as int) / 2 != be16(data[2], data[3]),
    ensures
        spec_parse(data) == Err::<(u16, Seq<u8>), _>(ModbusSerializationError::Ambivalent),
{
}

/// The numeric rules on a body whose length fields agree and whose payload
/// is fully present: a quantity of zero is invalid, more than 123 registers
/// are too large, and a run whose last register lies past the 16-bit
/// address space overflows; everything else parses to the address and the
/// payload.
pub proof fn lemma_quantity_rules(data: Seq<u8>)
    requires
        data.len() >= 7,
        (data[4] as int) / 2 == be16(data[2], data[3]),
        data[4] % 2 == 0,
        data.len() >= data[4] + 5,
    ensures
        be16(data[2], data[3]) == 0 ==> spec_parse(data) == Err::<(u16, Seq<u8>), _>(
            ModbusSerializationError::Invalid,
        ),
        be16(data[2], data[3]) > 123 ==> spec_parse(data) == Err::<(u16, Seq<u8>), _>(
            ModbusSerializationError::TooLarge,
        ),
        1 <= be16(data[2], data[3]) <= 123 && be16(data[0], data[1]) + be16(data[2], data[3])
            > 0x10000 ==> spec_parse(data) == Err::<(u16, Seq<u8>), _>(
            ModbusSerializationError::Overflow,
        ),
        1 <= be16(data[2], data[3]) <= 123 && be16(data[0], data[1]) + be16(data[2], data[3])
            <= 0x10000 ==> spec_parse(data) == Ok::<_, ModbusSerializationError>(
            (be16(data[0], data[1]), data.subrange(5, 5 + data[4])),
        ),
{
}

/// Round trip: encoding a run of registers and parsing the encoded bytes
/// back, the function code stripped, reproduces the address and the
/// payload exactly, for every quantity between 1 and 123 whose last
/// register stays inside the address space.
pub proof fn lemma_round_trip(addr: u16, regs: Seq<u8>)
    requires
        regs.len() % 2 == 0,
        1 <= regs.len() / 2 <= 123,
        addr + regs.len() / 2 <= 0x10000,
    ensures
        spec_parse(spec_encode(addr, regs).subrange(1, spec_encode(addr, regs).len() as int))
            == Ok::<_, ModbusSerializationError>((addr, regs)),
{
    let enc = spec_encode(addr, regs);
    let body = enc.subrange(1, enc.len() as int);
    crate::util::lemma_be16_of_enc(addr);
    crate::util::lemma_be16_of_enc((regs.len() / 2) as u16);
    assert(body.len() == regs.len() + 5);
    assert(body[0] == crate::util::be16_hi(addr));
    assert(body[1] == crate::util::be16_lo(addr));
    assert(be16(body[0], body[1]) == addr);
    assert(be16(body[2], body[3]) == (regs.len() / 2) as u16);
    assert(body[4] == regs.len() as u8);
    assert(body.subrange(5, 5 + regs.len() as int) =~= regs);
}


} // verus!
