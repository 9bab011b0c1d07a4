//! A borrowed view of raw bytes as a run of 16-bit register words.
//!
//! The view never copies: it keeps the borrow and decodes each word big
//! endian on demand. Only even byte lengths describe whole registers, so
//! construction rejects odd lengths.

use vstd::prelude::*;

use crate::error::ModbusSerializationError;
use crate::util::be16;

verus! {

/// The register words described by `bytes`: every pair of bytes, most
/// significant first, in order.
pub open spec fn words_of(bytes: Seq<u8>) -> Seq<u16> {
    Seq::new((bytes.len() / 2) as nat, |i: int| be16(bytes[2 * i], bytes[2 * i + 1]))
}

/// An immutable borrow of a byte buffer interpreted as a sequence of big
/// endian 16-bit register words.
#[derive(Debug, PartialEq, Eq, PartialOrd, Ord, Hash, Clone, Copy)]
pub struct RegisterSlice<'a> {
    bytes: &'a [u8],
}

impl<'a> RegisterSlice<'a> {
    /// The bytes this view borrows.
    pub closed spec fn spec_bytes(self) -> Seq<u8> {
        self.bytes@
    }

    /// The register words this view describes.
    pub open spec fn spec_words(self) -> Seq<u16> {
        words_of(self.spec_bytes())
    }

    /// A well formed view borrows an even number of bytes, so the bytes
    /// describe whole registers and nothing dangles.
    pub open spec fn wf(self) -> bool {
        self.spec_bytes().len() % 2 == 0
    }

    /// Takes a view of `bytes` as register words.
    ///
    /// # Errors
    /// An odd number of bytes cannot describe whole registers and is
    /// rejected with [ModbusSerializationError::Invalid].
    pub fn new(bytes: &'a [u8]) -> (r: Result<Self, ModbusSerializationError>)
        ensures
            bytes@.len() % 2 == 0 ==> (r matches Ok(rs) && rs.spec_bytes() == bytes@ && rs.wf()),
            bytes@.len() % 2 != 0 ==> r == Err::<Self, _>(ModbusSerializationError::Invalid),
    {
        if bytes.len() % 2 == 0 {
            Ok(Self { bytes })
        } else {
            Err(ModbusSerializationError::Invalid)
        }
    }

    /// The word at register index `idx`, decoded big endian on demand, or
    /// nothing where fewer than `idx + 1` whole registers are present.
    pub fn get(self, idx: usize) -> (r: Option<u16>)
        ensures
            r == if idx < self.spec_words().len() {
                Some(self.spec_words()[idx as int])
            } else {
                Option::<u16>::None
            },
    {
        if idx < self.bytes.len() / 2 {
            let bidx = 2 * idx;
            Some(256 * (self.bytes[bidx] as u16) + (self.bytes[bidx + 1] as u16))
        } else {
            None
        }
    }

    /// How many whole register words this view describes.
    pub fn len(self) -> (r: usize)
        ensures
            r == self.spec_words().len(),
    {
        self.bytes.len() / 2
    }

    /// How many bytes this view borrows.
    pub fn bytes_len(self) -> (r: usize)
        ensures
            r == self.spec_bytes().len(),
    {
        self.bytes.len()
    }

    /// The bytes this view borrows.
    pub fn bytes(self) -> (r: &'a [u8])
        ensures
            r@ == self.spec_bytes(),
    {
        self.bytes
    }
}

} // verus!
