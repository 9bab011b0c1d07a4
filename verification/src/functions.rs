//! Mapping of modbus function codes and routines to read and check them.
//!
//! The main way to interact with modbus function codes is to construct
//! [ModbusFunction] instances. The [PublicModbusFunction] enum maps publicly
//! documented function codes.

use vstd::prelude::*;

verus! {

/// An enum mapping all publicly documented modbus function codes.
///
/// [Invalid](PublicModbusFunction::Invalid) stands for the code 0, which the
/// protocol reserves as truly invalid; every other variant carries the name
/// the specification documents for its code.
#[derive(Debug, Clone, Copy, PartialEq, Eq, PartialOrd, Ord, Hash, Structural)]
pub enum PublicModbusFunction {
    Invalid,
    ReadCoils,
    ReadDiscreteInputs,
    ReadHoldingRegisters,
    ReadInputRegisters,
    WriteSingleCoil,
    WriteSingleRegister,
    ReadExceptionStatus,
    Diagnostics,
    Program484,
    Poll484,
    GetCommEventCounter,
    GetCommEventLog,
    ProgramController,
    PollController,
    WriteMultipleCoils,
    WriteMultipleRegisters,
    ReportServerID,
    Program884M84,
    ResetCommLink,
    ReadFileRecord,
    WriteFileRecord,
    MaskWriteRegister,
    ReadWriteMultipleRegisters,
    ReadFIFOQueue,
    EncapsulatedInterfaceTransport,
}

impl PublicModbusFunction {
    /// The function code this variant stands for on the wire.
    pub open spec fn spec_code(self) -> u8 {
        match self {
            PublicModbusFunction::Invalid => 0,
            PublicModbusFunction::ReadCoils => 1,
            PublicModbusFunction::ReadDiscreteInputs => 2,
            PublicModbusFunction::ReadHoldingRegisters => 3,
            PublicModbusFunction::ReadInputRegisters => 4,
            PublicModbusFunction::WriteSingleCoil => 5,
            PublicModbusFunction::WriteSingleRegister => 6,
            PublicModbusFunction::ReadExceptionStatus => 7,
            PublicModbusFunction::Diagnostics => 8,
            PublicModbusFunction::Program484 => 9,
            PublicModbusFunction::Poll484 => 10,
            PublicModbusFunction::GetCommEventCounter => 11,
            PublicModbusFunction::GetCommEventLog => 12,
            PublicModbusFunction::ProgramController => 13,
            PublicModbusFunction::PollController => 14,
            PublicModbusFunction::WriteMultipleCoils => 15,
            PublicModbusFunction::WriteMultipleRegisters => 16,
            PublicModbusFunction::ReportServerID => 17,
            PublicModbusFunction::Program884M84 => 18,
            PublicModbusFunction::ResetCommLink => 19,
            PublicModbusFunction::ReadFileRecord => 20,
            PublicModbusFunction::WriteFileRecord => 21,
            PublicModbusFunction::MaskWriteRegister => 22,
            PublicModbusFunction::ReadWriteMultipleRegisters => 23,
            PublicModbusFunction::ReadFIFOQueue => 24,
            PublicModbusFunction::EncapsulatedInterfaceTransport => 43,
        }
    }

    /// Whether `code` belongs to a publicly documented function: the fixed
    /// set of 1 through 24 and 43, the reserved code 0 excluded.
    pub open spec fn spec_is_public_function(code: u8) -> bool {
        (1 <= code && code <= 24) || code == 43
    }

    /// The variant standing for `code`: the documented one where `code` is
    /// public, [PublicModbusFunction::Invalid] everywhere else.
    pub open spec fn spec_new(code: u8) -> PublicModbusFunction {
        if code == 1 {
            PublicModbusFunction::ReadCoils
        } else if code == 2 {
            PublicModbusFunction::ReadDiscreteInputs
        } else if code == 3 {
            PublicModbusFunction::ReadHoldingRegisters
        } else if code == 4 {
            PublicModbusFunction::ReadInputRegisters
        } else if code == 5 {
            PublicModbusFunction::WriteSingleCoil
        } else if code == 6 {
            PublicModbusFunction::WriteSingleRegister
        } else if code == 7 {
            PublicModbusFunction::ReadExceptionStatus
        } else if code == 8 {
            PublicModbusFunction::Diagnostics
        } else if code == 9 {
            PublicModbusFunction::Program484
        } else if code == 10 {
            PublicModbusFunction::Poll484
        } else if code == 11 {
            PublicModbusFunction::GetCommEventCounter
        } else if code == 12 {
            PublicModbusFunction::GetCommEventLog
        } else if code == 13 {
            PublicModbusFunction::ProgramController
        } else if code == 14 {
            PublicModbusFunction::PollController
        } else if code == 15 {
            PublicModbusFunction::WriteMultipleCoils
        } else if code == 16 {
            PublicModbusFunction::WriteMultipleRegisters
        } else if code == 17 {
            PublicModbusFunction::ReportServerID
        } else if code == 18 {
            PublicModbusFunction::Program884M84
        } else if code == 19 {
            PublicModbusFunction::ResetCommLink
        } else if code == 20 {
            PublicModbusFunction::ReadFileRecord
        } else if code == 21 {
            PublicModbusFunction::WriteFileRecord
        } else if code == 22 {
            PublicModbusFunction::MaskWriteRegister
        } else if code == 23 {
            PublicModbusFunction::ReadWriteMultipleRegisters
        } else if code == 24 {
            PublicModbusFunction::ReadFIFOQueue
        } else if code == 43 {
            PublicModbusFunction::EncapsulatedInterfaceTransport
        } else {
            PublicModbusFunction::Invalid
        }
    }

    /// Check if the given code is a publicly documented and valid function
    /// code.
    pub fn is_public_function(code: u8) -> (r: bool)
        ensures
            r == Self::spec_is_public_function(code),
    {
        (1 <= code && code <= 24) || code == 43
    }

    /// Create a [PublicModbusFunction] from a single byte. Every non public
    /// function code returns [PublicModbusFunction::Invalid].
    pub fn new(code: u8) -> (r: Self)
        ensures
            r == Self::spec_new(code),
            r.spec_code() == if Self::spec_is_public_function(code) {
                code
            } else {
                0u8
            },
    {
        match code {
            1 => PublicModbusFunction::ReadCoils,
            2 => PublicModbusFunction::ReadDiscreteInputs,
            3 => PublicModbusFunction::ReadHoldingRegisters,
            4 => PublicModbusFunction::ReadInputRegisters,
            5 => PublicModbusFunction::WriteSingleCoil,
            6 => PublicModbusFunction::WriteSingleRegister,
            7 => PublicModbusFunction::ReadExceptionStatus,
            8 => PublicModbusFunction::Diagnostics,
            9 => PublicModbusFunction::Program484,
            10 => PublicModbusFunction::Poll484,
            11 => PublicModbusFunction::GetCommEventCounter,
            12 => PublicModbusFunction::GetCommEventLog,
            13 => PublicModbusFunction::ProgramController,
            14 => PublicModbusFunction::PollController,
            15 => PublicModbusFunction::WriteMultipleCoils,
            16 => PublicModbusFunction::WriteMultipleRegisters,
            17 => PublicModbusFunction::ReportServerID,
            18 => PublicModbusFunction::Program884M84,
            19 => PublicModbusFunction::ResetCommLink,
            20 => PublicModbusFunction::ReadFileRecord,
            21 => PublicModbusFunction::WriteFileRecord,
            22 => PublicModbusFunction::MaskWriteRegister,
            23 => PublicModbusFunction::ReadWriteMultipleRegisters,
            24 => PublicModbusFunction::ReadFIFOQueue,
            43 => PublicModbusFunction::EncapsulatedInterfaceTransport,
            _ => PublicModbusFunction::Invalid,
        }
    }

    /// The function code this variant stands for on the wire.
    pub fn code(self) -> (r: u8)
        ensures
            r == self.spec_code(),
    {
        match self {
            PublicModbusFunction::Invalid => 0,
            PublicModbusFunction::ReadCoils => 1,
            PublicModbusFunction::ReadDiscreteInputs => 2,
            PublicModbusFunction::ReadHoldingRegisters => 3,
            PublicModbusFunction::ReadInputRegisters => 4,
            PublicModbusFunction::WriteSingleCoil => 5,
            PublicModbusFunction::WriteSingleRegister => 6,
            PublicModbusFunction::ReadExceptionStatus => 7,
            PublicModbusFunction::Diagnostics => 8,
            PublicModbusFunction::Program484 => 9,
            PublicModbusFunction::Poll484 => 10,
            PublicModbusFunction::GetCommEventCounter => 11,
            PublicModbusFunction::GetCommEventLog => 12,
            PublicModbusFunction::ProgramController => 13,
            PublicModbusFunction::PollController => 14,
            PublicModbusFunction::WriteMultipleCoils => 15,
            PublicModbusFunction::WriteMultipleRegisters => 16,
            PublicModbusFunction::ReportServerID => 17,
            PublicModbusFunction::Program884M84 => 18,
            PublicModbusFunction::ResetCommLink => 19,
            PublicModbusFunction::ReadFileRecord => 20,
            PublicModbusFunction::WriteFileRecord => 21,
            PublicModbusFunction::MaskWriteRegister => 22,
            PublicModbusFunction::ReadWriteMultipleRegisters => 23,
            PublicModbusFunction::ReadFIFOQueue => 24,
            PublicModbusFunction::EncapsulatedInterfaceTransport => 43,
        }
    }
}

/// A modbus function. This struct may store public as well as custom
/// functions. The only invalid function is 0.
///
/// This structure is a new type wrapper over u8 which adds function code
/// identification methods.
#[derive(Debug, Clone, Copy, Hash, Default, PartialEq, Eq, PartialOrd, Ord, Structural)]
pub struct ModbusFunction(pub u8);

impl ModbusFunction {
    /// Whether `code` lies in one of the two ranges set aside for custom
    /// functions.
    pub open spec fn spec_is_custom(code: u8) -> bool {
        (65 <= code && code <= 72) || (100 <= code && code <= 110)
    }

    pub fn new(function_code: u8) -> (r: Self)
        ensures
            r.0 == function_code,
    {
        Self(function_code)
    }

    /// Create a modbus function from a public Modbus function.
    pub fn new_public(public_function: PublicModbusFunction) -> (r: Self)
        ensures
            r.0 == public_function.spec_code(),
    {
        Self(public_function.code())
    }

    /// Checks if this function matches the given public function.
    pub fn is(self, public_function: PublicModbusFunction) -> (r: bool)
        ensures
            r == (self.0 == public_function.spec_code()),
    {
        self.0 == public_function.code()
    }

    /// Check if this function code is valid. Only 0 is invalid.
    pub fn is_valid(self) -> (r: bool)
        ensures
            r == (self.0 != 0),
    {
        self.0 != 0
    }

    /// Checks if this function is a publicly documented modbus function.
    ///
    /// This function returns true if this is a public reserved AND publicly
    /// documented function.
    pub fn is_public(self) -> (r: bool)
        ensures
            r == PublicModbusFunction::spec_is_public_function(self.0),
    {
        PublicModbusFunction::is_public_function(self.0)
    }

    /// Checks if this function is a public reserved function. Any valid and
    /// non custom function is reserved.
    pub fn is_public_reserved(self) -> (r: bool)
        ensures
            r == (self.0 != 0 && !Self::spec_is_custom(self.0)),
    {
        self.is_valid() && !self.is_custom()
    }

    /// Checks if this function is a custom function code.
    pub fn is_custom(self) -> (r: bool)
        ensures
            r == Self::spec_is_custom(self.0),
    {
        self.0 >= 65 && self.0 <= 72 || self.0 >= 100 && self.0 <= 110
    }

    /// Checks if this function code is an exception code. Which means that
    /// self >= 128.
    pub fn is_exception(self) -> (r: bool)
        ensures
            r == (self.0 >= 128),
    {
        self.0 >= 128
    }

    /// Gets the function code of the given modbus data.
    ///
    /// None is returned if data contains less than 1 byte.
    pub fn from_data(data: &[u8]) -> (r: (Option<Self>, Option<&[u8]>))
        ensures
            data@.len() >= 1 ==> (r.1 matches Some(tail) && r.0 == Some(ModbusFunction(data@[0]))
                && tail@ == data@.subrange(1, data@.len() as int)),
            data@.len() == 0 ==> r.0 == Option::<ModbusFunction>::None
                && r.1 == Option::<&[u8]>::None,
    {
        get_function(data)
    }
}

impl From<u8> for ModbusFunction {
    fn from(b: u8) -> (r: Self) {
        Self(b)
    }
}

impl vstd::std_specs::convert::FromSpecImpl<u8> for ModbusFunction {
    open spec fn obeys_from_spec() -> bool {
        true
    }

    open spec fn from_spec(b: u8) -> Self {
        ModbusFunction(b)
    }
}

impl From<PublicModbusFunction> for ModbusFunction {
    fn from(public_function: PublicModbusFunction) -> (r: Self) {
        Self::new_public(public_function)
    }
}

impl vstd::std_specs::convert::FromSpecImpl<PublicModbusFunction> for ModbusFunction {
    open spec fn obeys_from_spec() -> bool {
        true
    }

    open spec fn from_spec(public_function: PublicModbusFunction) -> Self {
        ModbusFunction(public_function.spec_code())
    }
}

/// Gets the function code of the given modbus data.
///
/// None is returned if data contains less than 1 byte.
pub fn get_function(data: &[u8]) -> (r: (Option<ModbusFunction>, Option<&[u8]>))
    ensures
        data@.len() >= 1 ==> (r.1 matches Some(tail) && r.0 == Some(ModbusFunction(data@[0]))
            && tail@ == data@.subrange(1, data@.len() as int)),
        data@.len() == 0 ==> r.0 == Option::<ModbusFunction>::None
            && r.1 == Option::<&[u8]>::None,
{
    if data.len() < 1 {
        (None, None)
    } else {
        (Some(ModbusFunction::new(data[0])), Some(&data[1..data.len()]))
    }
}

} // verus!
