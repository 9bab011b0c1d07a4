//! Bit addressable modbus data item state helper type.
//!
//! A single-bit item travels on the wire as one of exactly two reserved
//! 16-bit values: 0x0000 for off and 0xFF00 for on. Any other wire value is
//! rejected when decoding, never silently coerced.

use vstd::prelude::*;

use crate::error::ModbusSerializationError;

verus! {

/// Bit addressable modbus data item state helper type.
///
/// This enum works similar to bool but adds some helper functionality.
#[derive(Debug, PartialEq, Eq, PartialOrd, Ord, Hash, Clone, Copy, Structural)]
pub enum BitState {
    Off,
    On,
}

impl BitState {
    /// The 16-bit value this state is encoded as on the wire.
    pub open spec fn spec_wire(self) -> u16 {
        match self {
            BitState::Off => 0,
            BitState::On => 0xFF00,
        }
    }

    /// The state a 16-bit wire value decodes to, where it decodes at all.
    pub open spec fn spec_from_wire(value: u16) -> Result<BitState, ModbusSerializationError> {
        if value == 0 {
            Ok(BitState::Off)
        } else if value == 0xFF00 {
            Ok(BitState::On)
        } else {
            Err(ModbusSerializationError::Invalid)
        }
    }

    pub fn is_on(self) -> (r: bool)
        ensures
            r == (self is On),
    {
        match self {
            BitState::On => true,
            BitState::Off => false,
        }
    }

    /// The 16-bit value this state is encoded as on the wire.
    pub fn wire_value(self) -> (r: u16)
        ensures
            r == self.spec_wire(),
    {
        match self {
            BitState::Off => 0,
            BitState::On => 0xFF00,
        }
    }
}

impl Default for BitState {
    fn default() -> (r: BitState)
        ensures
            r == BitState::Off,
    {
        BitState::Off
    }
}

impl TryFrom<u16> for BitState {
    type Error = ModbusSerializationError;

    fn try_from(value: u16) -> (r: Result<Self, Self::Error>) {
        if value == 0 {
            Ok(BitState::Off)
        } else if value == 0xFF00 {
            Ok(BitState::On)
        } else {
            Err(ModbusSerializationError::Invalid)
        }
    }
}

impl vstd::std_specs::convert::TryFromSpecImpl<u16> for BitState {
    open spec fn obeys_try_from_spec() -> bool {
        true
    }

    open spec fn try_from_spec(value: u16) -> Result<Self, Self::Error> {
        BitState::spec_from_wire(value)
    }
}

impl From<bool> for BitState {
    fn from(b: bool) -> (r: Self) {
        if b {
            BitState::On
        } else {
            BitState::Off
        }
    }
}

impl vstd::std_specs::convert::FromSpecImpl<bool> for BitState {
    open spec fn obeys_from_spec() -> bool {
        true
    }

    open spec fn from_spec(b: bool) -> Self {
        if b {
            BitState::On
        } else {
            BitState::Off
        }
    }
}

impl From<BitState> for u16 {
    fn from(state: BitState) -> (r: u16) {
        state.wire_value()
    }
}

impl vstd::std_specs::convert::FromSpecImpl<BitState> for u16 {
    open spec fn obeys_from_spec() -> bool {
        true
    }

    open spec fn from_spec(state: BitState) -> u16 {
        state.spec_wire()
    }
}

impl From<BitState> for bool {
    fn from(state: BitState) -> (r: bool) {
        state.is_on()
    }
}

impl vstd::std_specs::convert::FromSpecImpl<BitState> for bool {
    open spec fn obeys_from_spec() -> bool {
        true
    }

    open spec fn from_spec(state: BitState) -> bool {
        state is On
    }
}

impl core::ops::Not for BitState {
    type Output = BitState;

    fn not(self) -> (r: Self::Output) {
        match self {
            BitState::On => BitState::Off,
            BitState::Off => BitState::On,
        }
    }
}

impl vstd::std_specs::ops::NotSpecImpl for BitState {
    open spec fn obeys_not_spec() -> bool {
        true
    }

    open spec fn not_req(self) -> bool {
        true
    }

    open spec fn not_spec(self) -> Self::Output {
        match self {
            BitState::On => BitState::Off,
            BitState::Off => BitState::On,
        }
    }
}

/// The two-state wire mapping is total on states and exact on wire values:
/// 0x0000 decodes to off and 0xFF00 to on, every other wire value is
/// rejected as invalid, and encoding then decoding a state gives the state
/// back.
pub proof fn lemma_two_state_wire(state: BitState, value: u16)
    ensures
        BitState::spec_from_wire(state.spec_wire()) == Ok::<
            BitState,
            ModbusSerializationError,
        >(state),
        value == 0 ==> BitState::spec_from_wire(value) == Ok::<
            BitState,
            ModbusSerializationError,
        >(BitState::Off),
        value == 0xFF00 ==> BitState::spec_from_wire(value) == Ok::<
            BitState,
            ModbusSerializationError,
        >(BitState::On),
        value != 0 && value != 0xFF00 ==> BitState::spec_from_wire(value) == Err::<
            BitState,
            _,
        >(ModbusSerializationError::Invalid),
        (BitState::spec_from_wire(value) matches Ok(s) ==> s.spec_wire() == value),
{
}

} // verus!
