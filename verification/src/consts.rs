//! Constants of the transport layer: the packet families and the sizes of
//! the fixed parts of a packet.

use vstd::prelude::*;
use vstd::std_specs::convert::TryFromSpecImpl;
use crate::error::EvtError;

verus! {

/// Bytes taken by the transport's frame header, which leads every packet: two
/// 32-bit list links.
pub const TL_PACKET_HEADER_SIZE: usize = 8;

/// Bytes of an event that precede its payload: the type byte, the event code
/// and the payload length.
pub const TL_EVT_HEADER_SIZE: usize = 3;

/// Bytes of a data record that precede its data: the type byte, a 16-bit
/// connection handle and the 16-bit length.
pub const TL_ACL_DATA_HEADER_SIZE: usize = 5;

/// Bytes of the payload of a command status event.
pub const TL_CS_EVT_SIZE: usize = 4;

/// The packet families that the co-processor produces or accepts, told apart
/// by the packet's type byte.
#[derive(Clone, Copy, Debug, PartialEq, Eq, Structural)]
pub enum TlPacketType {
    BleCmd,
    AclData,
    BleEvt,
    OtCmd,
    OtRsp,
    CliCmd,
    OtNot,
    OtAck,
    CliNot,
    CliAck,
    SysCmd,
    SysRsp,
    SysEvt,
    LocCmd,
    LocRsp,
    TracesApp,
    TracesWl,
}

impl TlPacketType {
    /// The type byte that stands for this family on the wire.
    pub open spec fn spec_code(self) -> u8 {
        match self {
            TlPacketType::BleCmd => 0x01,
            TlPacketType::AclData => 0x02,
            TlPacketType::BleEvt => 0x04,
            TlPacketType::OtCmd => 0x08,
            TlPacketType::OtRsp => 0x09,
            TlPacketType::CliCmd => 0x0A,
            TlPacketType::OtNot => 0x0C,
            TlPacketType::OtAck => 0x0D,
            TlPacketType::CliNot => 0x0E,
            TlPacketType::CliAck => 0x0F,
            TlPacketType::SysCmd => 0x10,
            TlPacketType::SysRsp => 0x11,
            TlPacketType::SysEvt => 0x12,
            TlPacketType::LocCmd => 0x20,
            TlPacketType::LocRsp => 0x21,
            TlPacketType::TracesApp => 0x40,
            TlPacketType::TracesWl => 0x41,
        }
    }

    /// The family that a type byte stands for, if it stands for one.
    pub open spec fn spec_from_code(code: u8) -> Option<TlPacketType> {
        if code == 0x01 {
            Some(TlPacketType::BleCmd)
        } else if code == 0x02 {
            Some(TlPacketType::AclData)
        } else if code == 0x04 {
            Some(TlPacketType::BleEvt)
        } else if code == 0x08 {
            Some(TlPacketType::OtCmd)
        } else if code == 0x09 {
            Some(TlPacketType::OtRsp)
        } else if code == 0x0A {
            Some(TlPacketType::CliCmd)
        } else if code == 0x0C {
            Some(TlPacketType::OtNot)
        } else if code == 0x0D {
            Some(TlPacketType::OtAck)
        } else if code == 0x0E {
            Some(TlPacketType::CliNot)
        } else if code == 0x0F {
            Some(TlPacketType::CliAck)
        } else if code == 0x10 {
            Some(TlPacketType::SysCmd)
        } else if code == 0x11 {
            Some(TlPacketType::SysRsp)
        } else if code == 0x12 {
            Some(TlPacketType::SysEvt)
        } else if code == 0x20 {
            Some(TlPacketType::LocCmd)
        } else if code == 0x21 {
            Some(TlPacketType::LocRsp)
        } else if code == 0x40 {
            Some(TlPacketType::TracesApp)
        } else if code == 0x41 {
            Some(TlPacketType::TracesWl)
        } else {
            None
        }
    }

    /// Whether this family is framed as a data record rather than as an event.
    pub open spec fn spec_is_acl_data(self) -> bool {
        self == TlPacketType::AclData
    }

    /// Returns the type byte of this family.
    pub fn code(self) -> (code: u8)
        ensures
            code == self.spec_code(),
    {
        match self {
            TlPacketType::BleCmd => 0x01,
            TlPacketType::AclData => 0x02,
            TlPacketType::BleEvt => 0x04,
            TlPacketType::OtCmd => 0x08,
            TlPacketType::OtRsp => 0x09,
            TlPacketType::CliCmd => 0x0A,
            TlPacketType::OtNot => 0x0C,
            TlPacketType::OtAck => 0x0D,
            TlPacketType::CliNot => 0x0E,
            TlPacketType::CliAck => 0x0F,
            TlPacketType::SysCmd => 0x10,
            TlPacketType::SysRsp => 0x11,
            TlPacketType::SysEvt => 0x12,
            TlPacketType::LocCmd => 0x20,
            TlPacketType::LocRsp => 0x21,
            TlPacketType::TracesApp => 0x40,
            TlPacketType::TracesWl => 0x41,
        }
    }

    /// Tells whether this family is the data-record family.
    pub fn is_acl_data(self) -> (yes: bool)
        ensures
            yes == self.spec_is_acl_data(),
    {
        match self {
            TlPacketType::AclData => true,
            _ => false,
        }
    }

    /// A family's type byte stands for that family and for no other.
    pub proof fn lemma_code_round_trip(self)
        ensures
            TlPacketType::spec_from_code(self.spec_code()) == Some(self),
    {
    }

    /// A type byte that stands for a family is that family's type byte.
    pub proof fn lemma_from_code_is_inverse(code: u8)
        ensures
            TlPacketType::spec_from_code(code) matches Some(kind) ==> kind.spec_code() == code,
    {
    }
}

impl TryFrom<u8> for TlPacketType {
    type Error = EvtError;

    /// Maps a type byte to its family; a byte that stands for none is an
    /// unrecognized kind.
    fn try_from(value: u8) -> (r: Result<TlPacketType, EvtError>) {
        match value {
            0x01 => Ok(TlPacketType::BleCmd),
            0x02 => Ok(TlPacketType::AclData),
            0x04 => Ok(TlPacketType::BleEvt),
            0x08 => Ok(TlPacketType::OtCmd),
            0x09 => Ok(TlPacketType::OtRsp),
            0x0A => Ok(TlPacketType::CliCmd),
            0x0C => Ok(TlPacketType::OtNot),
            0x0D => Ok(TlPacketType::OtAck),
            0x0E => Ok(TlPacketType::CliNot),
            0x0F => Ok(TlPacketType::CliAck),
            0x10 => Ok(TlPacketType::SysCmd),
            0x11 => Ok(TlPacketType::SysRsp),
            0x12 => Ok(TlPacketType::SysEvt),
            0x20 => Ok(TlPacketType::LocCmd),
            0x21 => Ok(TlPacketType::LocRsp),
            0x40 => Ok(TlPacketType::TracesApp),
            0x41 => Ok(TlPacketType::TracesWl),
            _ => Err(EvtError::UnrecognizedKind),
        }
    }
}

impl TryFromSpecImpl<u8> for TlPacketType {
    open spec fn obeys_try_from_spec() -> bool {
        true
    }

    open spec fn try_from_spec(value: u8) -> Result<TlPacketType, EvtError> {
        match TlPacketType::spec_from_code(value) {
            Some(kind) => Ok(kind),
            None => Err(EvtError::UnrecognizedKind),
        }
    }
}

} // verus!
