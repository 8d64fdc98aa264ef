use vstd::prelude::*;

verus! {

/// Revision of the DoIP specification stamped on every outgoing message and
/// checked, together with its inverse byte, on every incoming frame.
#[derive(Clone, Copy, Debug, PartialEq, Eq, Structural)]
pub enum ProtocolVersion {
    ReservedVer,
    Iso13400_2010,
    Iso13400_2012,
    Iso13400_2019,
    Iso13400_2019Amd1,
    DefaultValue,
}

/// The wire byte of each protocol version.
pub open spec fn version_value(v: ProtocolVersion) -> u8 {
    match v {
        ProtocolVersion::ReservedVer => 0x00,
        ProtocolVersion::Iso13400_2010 => 0x01,
        ProtocolVersion::Iso13400_2012 => 0x02,
        ProtocolVersion::Iso13400_2019 => 0x03,
        ProtocolVersion::Iso13400_2019Amd1 => 0x04,
        ProtocolVersion::DefaultValue => 0xff,
    }
}

/// The protocol version a wire byte denotes, if any.
pub open spec fn version_from_value(b: u8) -> Option<ProtocolVersion> {
    if b == 0x00 {
        Some(ProtocolVersion::ReservedVer)
    } else if b == 0x01 {
        Some(ProtocolVersion::Iso13400_2010)
    } else if b == 0x02 {
        Some(ProtocolVersion::Iso13400_2012)
    } else if b == 0x03 {
        Some(ProtocolVersion::Iso13400_2019)
    } else if b == 0x04 {
        Some(ProtocolVersion::Iso13400_2019Amd1)
    } else if b == 0xff {
        Some(ProtocolVersion::DefaultValue)
    } else {
        None
    }
}

/// The inverse protocol version byte that the header carries beside the
/// version byte: every bit flipped.
pub open spec fn inverse_version_value(v: ProtocolVersion) -> u8 {
    (255 - version_value(v)) as u8
}

impl ProtocolVersion {
    /// The byte this version is written as on the wire.
    pub fn value(&self) -> (r: u8)
        ensures
            r == version_value(*self),
    {
        match self {
            ProtocolVersion::ReservedVer => 0x00,
            ProtocolVersion::Iso13400_2010 => 0x01,
            ProtocolVersion::Iso13400_2012 => 0x02,
            ProtocolVersion::Iso13400_2019 => 0x03,
            ProtocolVersion::Iso13400_2019Amd1 => 0x04,
            ProtocolVersion::DefaultValue => 0xff,
        }
    }

    /// The version denoted by a wire byte, or `None` on an unknown byte.
    pub fn from_value(b: u8) -> (r: Option<ProtocolVersion>)
        ensures
            r == version_from_value(b),
    {
        if b == 0x00 {
            Some(ProtocolVersion::ReservedVer)
        } else if b == 0x01 {
            Some(ProtocolVersion::Iso13400_2010)
        } else if b == 0x02 {
            Some(ProtocolVersion::Iso13400_2012)
        } else if b == 0x03 {
            Some(ProtocolVersion::Iso13400_2019)
        } else if b == 0x04 {
            Some(ProtocolVersion::Iso13400_2019Amd1)
        } else if b == 0xff {
            Some(ProtocolVersion::DefaultValue)
        } else {
            None
        }
    }

    /// The inverse version byte stamped beside the version byte.
    pub fn inverse_value(&self) -> (r: u8)
        ensures
            r == inverse_version_value(*self),
    {
        255 - self.value()
    }
}

/// Reading back the byte a version was written as gives that version.
pub proof fn lemma_version_value_round_trip(v: ProtocolVersion)
    ensures
        version_from_value(version_value(v)) == Some(v),
{
}

/// A byte that denotes a version is exactly that version's wire byte.
pub proof fn lemma_version_from_value_inverse(b: u8)
    ensures
        version_from_value(b) matches Some(v) ==> version_value(v) == b,
{
}

} // verus!
