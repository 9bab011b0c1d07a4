//! The fixed-size request that writes one coil.
//!
//! Its body is a 16-bit address followed by the two-state wire value of the
//! coil, 4 bytes in all; only the two reserved wire values are accepted when
//! parsing.

use vstd::prelude::*;

use crate::bitstate::BitState;
use crate::error::ModbusSerializationError;
use crate::functions::PublicModbusFunction;
use crate::util::{be16, enc_frame5};

verus! {

/// What parsing the body of a write-single-coil request out of `data`
/// yields: the address and the decoded coil state, or the first violated
/// rule.
///
/// Fewer than 4 bytes cannot hold the two fields; a state field that is
/// neither 0x0000 nor 0xFF00 is rejected as an invalid value.
pub open spec fn spec_parse_coil_body(data: Seq<u8>) -> Result<
    (u16, BitState),
    ModbusSerializationError,
> {
    if data.len() < 4 {
        Err(ModbusSerializationError::UnexpectedEOF { expected: 4, got: data.len() as usize })
    } else {
        match BitState::spec_from_wire(be16(data[2], data[3])) {
            Ok(state) => Ok((be16(data[0], data[1]), state)),
            Err(e) => Err(e),
        }
    }
}

/// An input shorter than the fixed minimum of this layout is reported as
/// exactly that: the layout's minimum expected, the actual length got.
pub proof fn lemma_short_input_eof(data: Seq<u8>)
    requires
        data.len() < 4,
    ensures
        spec_parse_coil_body(data) == Err::<(u16, BitState), _>(
            ModbusSerializationError::UnexpectedEOF { expected: 4, got: data.len() as usize },
        ),
{
}

/// Request structure to write single coil.
#[derive(Debug, Clone, Copy, Hash, Default, PartialEq, Eq, PartialOrd, Ord, Structural)]
pub struct WriteSingleCoil {
    pub addr: u16,
    pub state: BitState,
}

impl WriteSingleCoil {
    /// The Modbus function this request corresponds to.
    pub const MODBUS_FUNCTION_CODE: PublicModbusFunction = PublicModbusFunction::WriteSingleCoil;

    /// Create a new request to write a single coil at addr to state.
    pub fn new(addr: u16, state: BitState) -> (r: Self)
        ensures
            r == (WriteSingleCoil { addr, state }),
    {
        Self { addr, state }
    }

    /// Parse this request from the given modbus data.
    ///
    /// The data should only consist out of the address and state as the
    /// slave id and function code will be already read through other means.
    /// The result is exactly what [spec_parse_coil_body] says of the input;
    /// on success the 4 body bytes are consumed and the rest returned as
    /// tail.
    pub fn from_data(data: &[u8]) -> (r: Result<(Self, &[u8]), ModbusSerializationError>)
        ensures
            (spec_parse_coil_body(data@) matches Ok((a, s)) ==> r matches Ok((req, tail))
                && req == (WriteSingleCoil { addr: a, state: s })
                && tail@ == data@.subrange(4, data@.len() as int)),
            (spec_parse_coil_body(data@) matches Err(e) ==> r == Err::<(Self, &[u8]), _>(e)),
    {
        if data.len() < 4 {
            return Err(ModbusSerializationError::UnexpectedEOF { expected: 4, got: data.len() });
        }
        let addr = 256 * (data[0] as u16) + (data[1] as u16);
        let wire = 256 * (data[2] as u16) + (data[3] as u16);
        let state = if wire == 0 {
            BitState::Off
        } else if wire == 0xFF00 {
            BitState::On
        } else {
            return Err(ModbusSerializationError::Invalid);
        };
        Ok((Self { addr, state }, &data[4..data.len()]))
    }

    /// Create modbus data of the correct size from this request.
    ///
    /// The data consists of [function code, addr hi, addr lo, state hi,
    /// state lo] in big endian.
    pub fn into_data(self) -> (r: [u8; 5])
        ensures
            r@ == enc_frame5(5, self.addr, self.state.spec_wire()),
    {
        let wire = self.state.wire_value();
        let r = [5u8, (self.addr / 256) as u8, (self.addr % 256) as u8, (wire / 256) as u8, (wire
            % 256) as u8];
        assert(r@ =~= enc_frame5(5, self.addr, self.state.spec_wire()));
        r
    }

    /// Write this request to the slice as modbus data, the function code
    /// included.
    ///
    /// # Errors
    /// If `out` holds less than 5 bytes a
    /// [ModbusSerializationError::InsufficientBuffer] will be returned and
    /// `out` is not touched at all.
    pub fn write_to_slice(self, out: &mut [u8]) -> (r: Result<(), ModbusSerializationError>)
        ensures
            old(out)@.len() >= 5 ==> (r matches Ok(()) && final(out)@ == enc_frame5(
                5,
                self.addr,
                self.state.spec_wire(),
            ) + old(out)@.subrange(5, old(out)@.len() as int)),
            old(out)@.len() < 5 ==> r == Err::<(), _>(
                ModbusSerializationError::InsufficientBuffer {
                    expected: 5,
                    got: old(out)@.len() as usize,
                },
            ) && final(out)@ == old(out)@,
    {
        if out.len() < 5 {
            return Err(
                ModbusSerializationError::InsufficientBuffer { expected: 5, got: out.len() },
            );
        }
        let wire = self.state.wire_value();
        out[0] = 5;
        out[1] = (self.addr / 256) as u8;
        out[2] = (self.addr % 256) as u8;
        out[3] = (wire / 256) as u8;
        out[4] = (wire % 256) as u8;
        assert(final(out)@ =~= enc_frame5(5, self.addr, self.state.spec_wire()) + old(
            out,
        )@.subrange(5, old(out)@.len() as int));
        Ok(())
    }
}

} // verus!
