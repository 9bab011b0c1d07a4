//! Modbus Slave Ids.
//!
//! Slave ids are mainly used for Modbus RTU and Modbus ASCII communication
//! but in many cases also have significance for modbus TCP communication.
//! The [SlaveId] struct is the main way of using slave ids.

use vstd::prelude::*;

verus! {

/// A u8 wrapper type to represent slave ids.
///
/// The value 0 is the broadcast id every device must react to, values of
/// 248 and above are reserved (among them the conventional TCP default
/// 0xFF), and everything in between addresses a single device.
#[derive(Debug, Clone, Copy, Hash, Default, PartialEq, Eq, PartialOrd, Ord, Structural)]
pub struct SlaveId(pub u8);

impl SlaveId {
    pub fn new(id: u8) -> (r: Self)
        ensures
            r.0 == id,
    {
        Self(id)
    }

    /// The default TCP slave id is 255 decimal or 0xFF hex.
    ///
    /// Addressing in TCP is normally done through the ip address so the
    /// slave id is just set to 0xFF. In many cases this rule is ignored and
    /// a certain slave address is expected.
    pub fn new_default_tcp() -> (r: Self)
        ensures
            r.0 == 0xFF,
    {
        Self(0xFF)
    }

    /// Creates a new broadcast slave id. The broadcast id is 0 and every
    /// slave device MUST react to it.
    pub fn new_broadcast() -> (r: Self)
        ensures
            r.0 == 0,
    {
        Self(0)
    }

    /// Check if this id is for a normal device. Only false if this is a
    /// reserved slave id (>= 248) or broadcast (0).
    pub fn is_device(self) -> (r: bool)
        ensures
            r == (self.0 != 0 && self.0 < 248),
    {
        !self.is_broadcast() && !self.is_reserved()
    }

    /// Checks if this is any reserved slave address other than broadcast
    /// (id >= 248).
    pub fn is_reserved(self) -> (r: bool)
        ensures
            r == (self.0 >= 248),
    {
        self.0 >= 248
    }

    /// Checks if this is a broadcast slave id. The broadcast id is 0 and
    /// every slave device MUST react to it.
    pub fn is_broadcast(self) -> (r: bool)
        ensures
            r == (self.0 == 0),
    {
        self.0 == 0
    }

    /// Checks if this is the default TCP slave id (0xFF).
    pub fn is_default_tcp(self) -> (r: bool)
        ensures
            r == (self.0 == 0xFF),
    {
        self.0 == 0xFF
    }

    /// Checks if a device with this slave id has to react to the given slave
    /// id `other`: it has to when `other` is the broadcast id or its own.
    pub fn must_react(self, other: SlaveId) -> (r: bool)
        ensures
            r == (other.0 == 0 || self.0 == other.0),
    {
        if other.0 == 0 {
            true
        } else {
            self.0 == other.0
        }
    }

    /// Gets the slave id of the given modbus data.
    ///
    /// None is returned if data contains less than 1 byte.
    pub fn from_data(data: &[u8]) -> (r: (Option<Self>, Option<&[u8]>))
        ensures
            data@.len() >= 1 ==> (r.1 matches Some(tail) && r.0 == Some(SlaveId(data@[0]))
                && tail@ == data@.subrange(1, data@.len() as int)),
            data@.len() == 0 ==> r.0 == Option::<SlaveId>::None && r.1 == Option::<&[u8]>::None,
    {
        get_slaveid(data)
    }
}

impl From<u8> for SlaveId {
    fn from(sid: u8) -> (r: Self) {
        Self(sid)
    }
}

impl vstd::std_specs::convert::FromSpecImpl<u8> for SlaveId {
    open spec fn obeys_from_spec() -> bool {
        true
    }

    open spec fn from_spec(sid: u8) -> Self {
        SlaveId(sid)
    }
}

/// Gets the slave id of the given modbus data.
///
/// None is returned if data contains less than 1 byte.
pub fn get_slaveid(data: &[u8]) -> (r: (Option<SlaveId>, Option<&[u8]>))
    ensures
        data@.len() >= 1 ==> (r.1 matches Some(tail) && r.0 == Some(SlaveId(data@[0]))
            && tail@ == data@.subrange(1, data@.len() as int)),
        data@.len() == 0 ==> r.0 == Option::<SlaveId>::None && r.1 == Option::<&[u8]>::None,
{
    if data.len() < 1 {
        (None, None)
    } else {
        (Some(SlaveId::new(data[0])), Some(&data[1..data.len()]))
    }
}

} // verus!
