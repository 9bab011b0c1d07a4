//! Classification of a function-code byte into its semantic variant.
//!
//! Every one of the 256 possible byte values belongs to exactly one of three
//! camps: the publicly documented codes, the two ranges set aside for custom
//! codes, and everything else. [ModbusFunction] names that partition; the
//! usual first step on received data is to read the function code through
//! [get_function] and match over the result.

use vstd::prelude::*;

verus! {

/// Any normal ModbusFunction which is not an exception.
///
/// The general idea is that the first thing when receiving modbus data is to
/// read the ModbusFunction and match over it.
#[derive(Debug, Clone, Copy, PartialEq, Eq, PartialOrd, Ord, Hash, Structural)]
pub enum ModbusFunction {
    /// Public defined function
    Public(PublicModbusFunction),
    /// Custom defined function
    Custom(CustomModbusFunction),
    /// Non custom definable, non publicly defined function
    Other(OtherModbusFunction),
}

/// An enum mapping all publicly defined modbus function codes.
#[derive(Debug, Clone, Copy, PartialEq, Eq, PartialOrd, Ord, Hash, Structural)]
pub enum PublicModbusFunction {
    /// Function code 0 is defined as truly invalid
    Invalid,
    ReadCoils,
    ReadDiscreteInputs,
    ReadHoldingRegisters,
    ReadInputRegisters,
    WriteSingleCoil,
    WriteSingleRegister,
    ReadExceptionStatus,
    Diagnostics,
    Program484,
    Poll484,
    GetCommEventCounter,
    GetCommEventLog,
    ProgramController,
    PollController,
    WriteMultipleCoils,
    WriteMultipleregisters,
    ReportServerID,
    Program884M84,
    ResetCommLink,
    ReadFileRecord,
    WriteFileRecord,
    MaskWriteRegister,
    ReadWriteMultipleRegisters,
    ReadFIFOQueue,
    EncapsulatedInterfaceTransport,
}

/// A custom defined modbus function.
///
/// This struct is a function code which is outside of the range of public or
/// reserved function codes.
#[derive(Debug, Clone, Copy, PartialEq, Eq, PartialOrd, Ord, Hash, Structural)]
pub struct CustomModbusFunction(u8);

/// Non custom definable, non publicly defined function code.
#[derive(Debug, Clone, Copy, PartialEq, Eq, PartialOrd, Ord, Hash, Structural)]
pub struct OtherModbusFunction(u8);

impl PublicModbusFunction {
    /// The function code this variant stands for on the wire.
    pub open spec fn spec_code(self) -> u8 {
        match self {
            PublicModbusFunction::Invalid => 0,
            PublicModbusFunction::ReadCoils => 1,
            PublicModbusFunction::ReadDiscreteInputs => 2,
            PublicModbusFunction::ReadHoldingRegisters => 3,
            PublicModbusFunction::ReadInputRegisters => 4,
            PublicModbusFunction::WriteSingleCoil => 5,
            PublicModbusFunction::WriteSingleRegister => 6,
            PublicModbusFunction::ReadExceptionStatus => 7,
            PublicModbusFunction::Diagnostics => 8,
            PublicModbusFunction::Program484 => 9,
            PublicModbusFunction::Poll484 => 10,
            PublicModbusFunction::GetCommEventCounter => 11,
            PublicModbusFunction::GetCommEventLog => 12,
            PublicModbusFunction::ProgramController => 13,
            PublicModbusFunction::PollController => 14,
            PublicModbusFunction::WriteMultipleCoils => 15,
            PublicModbusFunction::WriteMultipleregisters => 16,
            PublicModbusFunction::ReportServerID => 17,
            PublicModbusFunction::Program884M84 => 18,
            PublicModbusFunction::ResetCommLink => 19,
            PublicModbusFunction::ReadFileRecord => 20,
            PublicModbusFunction::WriteFileRecord => 21,
            PublicModbusFunction::MaskWriteRegister => 22,
            PublicModbusFunction::ReadWriteMultipleRegisters => 23,
            PublicModbusFunction::ReadFIFOQueue => 24,
            PublicModbusFunction::EncapsulatedInterfaceTransport => 43,
        }
    }

    /// Whether `code` lies in the publicly defined set, the code 0 included.
    pub open spec fn spec_is_public_function(code: u8) -> bool {
        code <= 24 || code == 43
    }

    /// The variant standing for `code`: the defined one where `code` is
    /// public, [PublicModbusFunction::Invalid] everywhere else.
    pub open spec fn spec_new(code: u8) -> PublicModbusFunction {
        if code == 1 {
            PublicModbusFunction::ReadCoils
        } else if code == 2 {
            PublicModbusFunction::ReadDiscreteInputs
        } else if code == 3 {
            PublicModbusFunction::ReadHoldingRegisters
        } else if code == 4 {
            PublicModbusFunction::ReadInputRegisters
        } else if code == 5 {
            PublicModbusFunction::WriteSingleCoil
        } else if code == 6 {
            PublicModbusFunction::WriteSingleRegister
        } else if code == 7 {
            PublicModbusFunction::ReadExceptionStatus
        } else if code == 8 {
            PublicModbusFunction::Diagnostics
        } else if code == 9 {
            PublicModbusFunction::Program484
        } else if code == 10 {
            PublicModbusFunction::Poll484
        } else if code == 11 {
            PublicModbusFunction::GetCommEventCounter
        } else if code == 12 {
            PublicModbusFunction::GetCommEventLog
        } else if code == 13 {
            PublicModbusFunction::ProgramController
        } else if code == 14 {
            PublicModbusFunction::PollController
        } else if code == 15 {
            PublicModbusFunction::WriteMultipleCoils
        } else if code == 16 {
            PublicModbusFunction::WriteMultipleregisters
        } else if code == 17 {
            PublicModbusFunction::ReportServerID
        } else if code == 18 {
            PublicModbusFunction::Program884M84
        } else if code == 19 {
            PublicModbusFunction::ResetCommLink
        } else if code == 20 {
            PublicModbusFunction::ReadFileRecord
        } else if code == 21 {
            PublicModbusFunction::WriteFileRecord
        } else if code == 22 {
            PublicModbusFunction::MaskWriteRegister
        } else if code == 23 {
            PublicModbusFunction::ReadWriteMultipleRegisters
        } else if code == 24 {
            PublicModbusFunction::ReadFIFOQueue
        } else if code == 43 {
            PublicModbusFunction::EncapsulatedInterfaceTransport
        } else {
            PublicModbusFunction::Invalid
        }
    }

    /// The variant standing for `code`; every non public code gives
    /// [PublicModbusFunction::Invalid].
    pub fn new(code: u8) -> (r: Self)
        ensures
            r == Self::spec_new(code),
    {
        match code {
            1 => PublicModbusFunction::ReadCoils,
            2 => PublicModbusFunction::ReadDiscreteInputs,
            3 => PublicModbusFunction::ReadHoldingRegisters,
            4 => PublicModbusFunction::ReadInputRegisters,
            5 => PublicModbusFunction::WriteSingleCoil,
            6 => PublicModbusFunction::WriteSingleRegister,
            7 => PublicModbusFunction::ReadExceptionStatus,
            8 => PublicModbusFunction::Diagnostics,
            9 => PublicModbusFunction::Program484,
            10 => PublicModbusFunction::Poll484,
            11 => PublicModbusFunction::GetCommEventCounter,
            12 => PublicModbusFunction::GetCommEventLog,
            13 => PublicModbusFunction::ProgramController,
            14 => PublicModbusFunction::PollController,
            15 => PublicModbusFunction::WriteMultipleCoils,
            16 => PublicModbusFunction::WriteMultipleregisters,
            17 => PublicModbusFunction::ReportServerID,
            18 => PublicModbusFunction::Program884M84,
            19 => PublicModbusFunction::ResetCommLink,
            20 => PublicModbusFunction::ReadFileRecord,
            21 => PublicModbusFunction::WriteFileRecord,
            22 => PublicModbusFunction::MaskWriteRegister,
            23 => PublicModbusFunction::ReadWriteMultipleRegisters,
            24 => PublicModbusFunction::ReadFIFOQueue,
            43 => PublicModbusFunction::EncapsulatedInterfaceTransport,
            _ => PublicModbusFunction::Invalid,
        }
    }

    /// Whether `code` lies in the publicly defined set, the code 0 included.
    pub fn is_public_function(code: u8) -> (r: bool)
        ensures
            r == Self::spec_is_public_function(code),
    {
        code <= 24 || code == 43
    }

    /// The function code this variant stands for on the wire.
    pub fn code(self) -> (r: u8)
        ensures
            r == self.spec_code(),
    {
        match self {
            PublicModbusFunction::Invalid => 0,
            PublicModbusFunction::ReadCoils => 1,
            PublicModbusFunction::ReadDiscreteInputs => 2,
            PublicModbusFunction::ReadHoldingRegisters => 3,
            PublicModbusFunction::ReadInputRegisters => 4,
            PublicModbusFunction::WriteSingleCoil => 5,
            PublicModbusFunction::WriteSingleRegister => 6,
            PublicModbusFunction::ReadExceptionStatus => 7,
            PublicModbusFunction::Diagnostics => 8,
            PublicModbusFunction::Program484 => 9,
            PublicModbusFunction::Poll484 => 10,
            PublicModbusFunction::GetCommEventCounter => 11,
            PublicModbusFunction::GetCommEventLog => 12,
            PublicModbusFunction::ProgramController => 13,
            PublicModbusFunction::PollController => 14,
            PublicModbusFunction::WriteMultipleCoils => 15,
            PublicModbusFunction::WriteMultipleregisters => 16,
            PublicModbusFunction::ReportServerID => 17,
            PublicModbusFunction::Program884M84 => 18,
            PublicModbusFunction::ResetCommLink => 19,
            PublicModbusFunction::ReadFileRecord => 20,
            PublicModbusFunction::WriteFileRecord => 21,
            PublicModbusFunction::MaskWriteRegister => 22,
            PublicModbusFunction::ReadWriteMultipleRegisters => 23,
            PublicModbusFunction::ReadFIFOQueue => 24,
            PublicModbusFunction::EncapsulatedInterfaceTransport => 43,
        }
    }
}

impl CustomModbusFunction {
    /// The function code this custom function stands for on the wire.
    pub closed spec fn spec_code(self) -> u8 {
        self.0
    }

    /// Whether `code` lies in one of the two ranges set aside for custom
    /// functions.
    pub open spec fn spec_is_custom_function(code: u8) -> bool {
        (65 <= code && code <= 72) || (100 <= code && code <= 110)
    }

    /// Wraps `code` where it lies in a custom range, and gives nothing back
    /// everywhere else.
    pub fn new(code: u8) -> (r: Option<Self>)
        ensures
            Self::spec_is_custom_function(code) ==> (r matches Some(c) && c.spec_code() == code),
            !Self::spec_is_custom_function(code) ==> r == Option::<CustomModbusFunction>::None,
    {
        if Self::is_custom_function(code) {
            Some(Self(code))
        } else {
            None
        }
    }

    /// Whether `code` lies in one of the two ranges set aside for custom
    /// functions.
    pub fn is_custom_function(code: u8) -> (r: bool)
        ensures
            r == Self::spec_is_custom_function(code),
    {
        (65 <= code && code <= 72) || (100 <= code && code <= 110)
    }

    /// The function code this custom function stands for on the wire.
    pub fn code(self) -> (r: u8)
        ensures
            r == self.spec_code(),
    {
        self.0
    }
}

impl OtherModbusFunction {
    /// The function code this function stands for on the wire.
    pub closed spec fn spec_code(self) -> u8 {
        self.0
    }

    /// Whether `code` is neither publicly defined nor custom definable.
    pub open spec fn spec_is_other_function(code: u8) -> bool {
        !PublicModbusFunction::spec_is_public_function(code)
            && !CustomModbusFunction::spec_is_custom_function(code)
    }

    /// Wraps `code` where it is neither public nor custom, and gives nothing
    /// back everywhere else.
    pub fn new(code: u8) -> (r: Option<Self>)
        ensures
            Self::spec_is_other_function(code) ==> (r matches Some(o) && o.spec_code() == code),
            !Self::spec_is_other_function(code) ==> r == Option::<OtherModbusFunction>::None,
    {
        if Self::is_other_function(code) {
            Some(Self(code))
        } else {
            None
        }
    }

    /// Whether `code` is neither publicly defined nor custom definable.
    pub fn is_other_function(code: u8) -> (r: bool)
        ensures
            r == Self::spec_is_other_function(code),
    {
        !PublicModbusFunction::is_public_function(code)
            && !CustomModbusFunction::is_custom_function(code)
    }

    /// The function code this function stands for on the wire.
    pub fn code(self) -> (r: u8)
        ensures
            r == self.spec_code(),
    {
        self.0
    }
}

impl ModbusFunction {
    /// The variant a function-code byte classifies to: custom codes keep
    /// their byte, public codes get their documented name, everything else
    /// is other. The byte 0 classifies to the distinguished invalid public
    /// value.
    ///
    /// [lemma_classification_partition] states how the result relates to the
    /// three range predicates.
    pub closed spec fn spec_classify(code: u8) -> ModbusFunction {
        if CustomModbusFunction::spec_is_custom_function(code) {
            ModbusFunction::Custom(CustomModbusFunction(code))
        } else if PublicModbusFunction::spec_is_public_function(code) {
            ModbusFunction::Public(PublicModbusFunction::spec_new(code))
        } else {
            ModbusFunction::Other(OtherModbusFunction(code))
        }
    }

    /// The function code this function stands for on the wire.
    pub open spec fn spec_code(self) -> u8 {
        match self {
            ModbusFunction::Public(p) => p.spec_code(),
            ModbusFunction::Custom(c) => c.spec_code(),
            ModbusFunction::Other(o) => o.spec_code(),
        }
    }

    /// The function code this function stands for on the wire.
    pub fn code(self) -> (r: u8)
        ensures
            r == self.spec_code(),
    {
        match self {
            ModbusFunction::Public(p) => p.code(),
            ModbusFunction::Custom(c) => c.code(),
            ModbusFunction::Other(o) => o.code(),
        }
    }
}

impl From<u8> for ModbusFunction {
    fn from(fcode: u8) -> (r: Self) {
        if CustomModbusFunction::is_custom_function(fcode) {
            Self::Custom(CustomModbusFunction(fcode))
        } else if PublicModbusFunction::is_public_function(fcode) {
            Self::Public(PublicModbusFunction::new(fcode))
        } else {
            Self::Other(OtherModbusFunction(fcode))
        }
    }
}

impl vstd::std_specs::convert::FromSpecImpl<u8> for ModbusFunction {
    open spec fn obeys_from_spec() -> bool {
        true
    }

    open spec fn from_spec(fcode: u8) -> Self {
        ModbusFunction::spec_classify(fcode)
    }
}

/// Every byte classifies to exactly one of the three variants, and the byte
/// 0 classifies to the distinguished invalid public value.
pub proof fn lemma_classification_partition(code: u8)
    ensures
        PublicModbusFunction::spec_is_public_function(code)
            || CustomModbusFunction::spec_is_custom_function(code)
            || OtherModbusFunction::spec_is_other_function(code),
        !(PublicModbusFunction::spec_is_public_function(code)
            && CustomModbusFunction::spec_is_custom_function(code)),
        (ModbusFunction::spec_classify(code) matches ModbusFunction::Public(p)
            && p == PublicModbusFunction::spec_new(code)) <==> (
        PublicModbusFunction::spec_is_public_function(code)
            && !CustomModbusFunction::spec_is_custom_function(code)),
        (ModbusFunction::spec_classify(code) is Custom)
            <==> CustomModbusFunction::spec_is_custom_function(code),
        (ModbusFunction::spec_classify(code) is Other)
            <==> OtherModbusFunction::spec_is_other_function(code),
        ModbusFunction::spec_classify(code).spec_code() == code,
        code == 0 ==> ModbusFunction::spec_classify(code) == ModbusFunction::Public(
            PublicModbusFunction::Invalid,
        ),
{
}

/// Gets the function code of the given modbus data.
///
/// None is returned if data contains less than 1 byte.
pub fn get_function(data: &[u8]) -> (r: (Option<ModbusFunction>, Option<&[u8]>))
    ensures
        data@.len() >= 1 ==> (r.1 matches Some(tail)
            && r.0 == Some(ModbusFunction::spec_classify(data@[0]))
            && tail@ == data@.subrange(1, data@.len() as int)),
        data@.len() == 0 ==> r.0 == Option::<ModbusFunction>::None
            && r.1 == Option::<&[u8]>::None,
{
    if data.len() < 1 {
        (None, None)
    } else {
        (Some(ModbusFunction::from(data[0])), Some(&data[1..data.len()]))
    }
}

} // verus!
