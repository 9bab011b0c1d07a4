use vstd::prelude::*;

verus! {

/// An error type describing what can happen when turning Modbus data into
/// bytes or bytes into Modbus data.
///
/// Every fallible operation of this crate reports the first violated rule
/// through one of these kinds; no partial result accompanies an error.
#[derive(Debug, Clone, Copy, PartialEq, Eq, Hash, PartialOrd, Ord, Structural)]
pub enum ModbusSerializationError {
    /// The input data held fewer bytes than a fixed-size field requires.
    UnexpectedEOF {
        /// The number of expected bytes
        expected: usize,
        /// The number of bytes received
        got: usize,
    },
    /// The given output buffer was too small to receive all data.
    InsufficientBuffer {
        /// The expected minimum size of the output buffer
        expected: usize,
        /// The size of the given output buffer
        got: usize,
    },
    /// An invalid value or invalid data was encountered that can not be
    /// accepted.
    ///
    /// One example would be a value other than 0xFF00 or 0x0000 as coil value
    /// or trying to write 0 coils/registers.
    Invalid,
    /// The given value would exceed the maximum allowed size of a Modbus
    /// request or request field.
    TooLarge,
    /// The given data had values that logically opposed itself.
    ///
    /// For instance if data states that `N` bytes will follow but the length
    /// field describing the same payload disagrees.
    Ambivalent,
    /// The given data would overflow a Modbus field or is logically
    /// incoherent because of something similar.
    ///
    /// In contrast to [ModbusSerializationError::TooLarge] this doesn't mean
    /// that a field contains too much data but rather that multiple fields in
    /// combination would break some numeric invariant. For instance a
    /// "write multiple" request that would write over the 0xFFFF address
    /// boundary (e.g. giving addr=0xFFFE but 50 registers to write).
    Overflow,
}

impl ModbusSerializationError {
    /// The kind reported for a field whose value lies outside its legal set,
    /// under the name that speaks of the value rather than of the data.
    #[allow(non_upper_case_globals)]
    pub const InvalidValue: ModbusSerializationError = ModbusSerializationError::Invalid;
}

} // verus!
