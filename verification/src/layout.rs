//! The byte shapes of the packets that the co-processor writes.
//!
//! Every field sits at a fixed offset with no padding, and multi-byte fields
//! are little-endian. A shape is read out of raw bytes by its `decode`
//! function, which checks that the bytes are long enough before it reads.

use vstd::prelude::*;
use crate::consts::{TL_CS_EVT_SIZE, TL_PACKET_HEADER_SIZE};

verus! {

/// Bytes of the fixed part of a [`CcEvt`], its one inline payload byte
/// included.
pub const CC_EVT_SIZE: usize = 3;

/// Bytes of the fixed part of an [`Evt`], its one inline payload byte
/// included.
pub const EVT_SIZE: usize = 3;

/// Bytes of the fixed part of an [`EvtSerial`].
pub const EVT_SERIAL_SIZE: usize = 4;

/// Bytes of the fixed part of an [`EvtPacket`].
pub const EVT_PACKET_SIZE: usize = 12;

/// The 16-bit value whose little-endian bytes are `lo`, `hi`.
pub open spec fn spec_u16_le(lo: u8, hi: u8) -> u16 {
    (lo as int + 256 * (hi as int)) as u16
}

/// The 32-bit value whose little-endian bytes are `b0` to `b3`.
pub open spec fn spec_u32_le(b0: u8, b1: u8, b2: u8, b3: u8) -> u32 {
    (b0 as int + 256 * (b1 as int) + 65536 * (b2 as int) + 16777216 * (b3 as int)) as u32
}

/// Reads a little-endian 16-bit value.
pub fn u16_le(lo: u8, hi: u8) -> (v: u16)
    ensures
        v == spec_u16_le(lo, hi),
        v as int == lo as int + 256 * (hi as int),
{
    lo as u16 + 256 * (hi as u16)
}

/// Reads a little-endian 32-bit value.
pub fn u32_le(b0: u8, b1: u8, b2: u8, b3: u8) -> (v: u32)
    ensures
        v == spec_u32_le(b0, b1, b2, b3),
        v as int == b0 as int + 256 * (b1 as int) + 65536 * (b2 as int) + 16777216 * (b3 as int),
{
    b0 as u32 + 256 * (b1 as u32) + 65536 * (b2 as u32) + 16777216 * (b3 as u32)
}

/// The frame header that the transport puts before every packet: the links
/// of the list that the buffer is queued on, as 32-bit addresses in shared
/// memory. The packet logic reads nothing out of it.
#[derive(Clone, Copy, Debug, PartialEq, Eq)]
pub struct PacketHeader {
    pub next: u32,
    pub prev: u32,
}

/// The payload of an [`Evt`] for a command status event.
#[derive(Clone, Copy, Debug, PartialEq, Eq)]
pub struct CsEvt {
    pub status: u8,
    pub num_cmd: u8,
    pub cmd_code: u16,
}

/// The payload of an [`Evt`] for a command complete event. `payload` holds
/// the first byte of what follows the command code.
#[derive(Clone, Copy, Debug, PartialEq, Eq)]
pub struct CcEvt {
    pub num_cmd: u8,
    pub cmd_code: u8,
    pub payload: [u8; 1],
}

/// The body of an event. `payload` holds the first payload byte; the event
/// declares `payload_len` of them.
#[derive(Clone, Copy, Debug, PartialEq, Eq)]
pub struct Evt {
    pub evt_code: u8,
    pub payload_len: u8,
    pub payload: [u8; 1],
}

/// An event as it travels: the type byte, then the body.
#[derive(Clone, Copy, Debug, PartialEq, Eq)]
pub struct EvtSerial {
    pub kind: u8,
    pub evt: Evt,
}

/// An event in a transport buffer: the frame header, then the event. Every
/// event that the co-processor reports has this shape, but for the response
/// to a system command, which comes without the frame header as an
/// [`EvtSerial`].
#[derive(Clone, Copy, Debug, PartialEq, Eq)]
pub struct EvtPacket {
    pub header: PacketHeader,
    pub evt_serial: EvtSerial,
}

impl Default for PacketHeader {
    /// A header on no list: both links are zero.
    fn default() -> (header: PacketHeader)
        ensures
            header.next == 0,
            header.prev == 0,
    {
        PacketHeader { next: 0, prev: 0 }
    }
}

impl Default for CcEvt {
    /// All fields zero.
    fn default() -> (cc: CcEvt)
        ensures
            cc.num_cmd == 0,
            cc.cmd_code == 0,
            cc.payload@ == seq![0u8],
    {
        CcEvt { num_cmd: 0, cmd_code: 0, payload: [0] }
    }
}

impl Default for Evt {
    /// All fields zero: an event that declares no payload.
    fn default() -> (evt: Evt)
        ensures
            evt.evt_code == 0,
            evt.payload_len == 0,
            evt.payload@ == seq![0u8],
    {
        Evt { evt_code: 0, payload_len: 0, payload: [0] }
    }
}

impl Default for EvtSerial {
    /// All fields zero.
    fn default() -> (serial: EvtSerial)
        ensures
            serial.kind == 0,
            serial.evt.evt_code == 0,
            serial.evt.payload_len == 0,
            serial.evt.payload@ == seq![0u8],
    {
        EvtSerial { kind: 0, evt: Evt { evt_code: 0, payload_len: 0, payload: [0] } }
    }
}

impl Default for EvtPacket {
    /// All fields zero.
    fn default() -> (packet: EvtPacket)
        ensures
            packet.header.next == 0,
            packet.header.prev == 0,
            packet.evt_serial.kind == 0,
            packet.evt_serial.evt.evt_code == 0,
            packet.evt_serial.evt.payload_len == 0,
            packet.evt_serial.evt.payload@ == seq![0u8],
    {
        EvtPacket {
            header: PacketHeader { next: 0, prev: 0 },
            evt_serial: EvtSerial {
                kind: 0,
                evt: Evt { evt_code: 0, payload_len: 0, payload: [0] },
            },
        }
    }
}

impl PacketHeader {
    /// The header that the first bytes of `bytes` spell, if there are enough.
    pub open spec fn spec_decode(bytes: Seq<u8>) -> Option<PacketHeader> {
        if bytes.len() >= TL_PACKET_HEADER_SIZE {
            Some(
                PacketHeader {
                    next: spec_u32_le(bytes[0], bytes[1], bytes[2], bytes[3]),
                    prev: spec_u32_le(bytes[4], bytes[5], bytes[6], bytes[7]),
                },
            )
        } else {
            None
        }
    }

    /// Reads a frame header from the start of `bytes`.
    pub fn decode(bytes: &[u8]) -> (r: Option<PacketHeader>)
        ensures
            r == PacketHeader::spec_decode(bytes@),
    {
        if bytes.len() < TL_PACKET_HEADER_SIZE {
            return None;
        }
        Some(
            PacketHeader {
                next: u32_le(bytes[0], bytes[1], bytes[2], bytes[3]),
                prev: u32_le(bytes[4], bytes[5], bytes[6], bytes[7]),
            },
        )
    }
}

impl CsEvt {
    /// The command status that the first bytes of `bytes` spell, if there are
    /// enough.
    pub open spec fn spec_decode(bytes: Seq<u8>) -> Option<CsEvt> {
        if bytes.len() >= TL_CS_EVT_SIZE {
            Some(
                CsEvt {
                    status: bytes[0],
                    num_cmd: bytes[1],
                    cmd_code: spec_u16_le(bytes[2], bytes[3]),
                },
            )
        } else {
            None
        }
    }

    /// Reads a command status from the start of an event's payload.
    pub fn decode(bytes: &[u8]) -> (r: Option<CsEvt>)
        ensures
            r == CsEvt::spec_decode(bytes@),
    {
        if bytes.len() < TL_CS_EVT_SIZE {
            return None;
        }
        Some(CsEvt { status: bytes[0], num_cmd: bytes[1], cmd_code: u16_le(bytes[2], bytes[3]) })
    }
}

impl CcEvt {
    /// The command completion that the first bytes of `bytes` spell, if there
    /// are enough.
    pub open spec fn spec_decode(bytes: Seq<u8>) -> Option<CcEvt> {
        if bytes.len() >= CC_EVT_SIZE {
            Some(CcEvt { num_cmd: bytes[0], cmd_code: bytes[1], payload: [bytes[2]] })
        } else {
            None
        }
    }

    /// Reads a command completion from the start of an event's payload.
    pub fn decode(bytes: &[u8]) -> (r: Option<CcEvt>)
        ensures
            r == CcEvt::spec_decode(bytes@),
    {
        if bytes.len() < CC_EVT_SIZE {
            return None;
        }
        Some(CcEvt { num_cmd: bytes[0], cmd_code: bytes[1], payload: [bytes[2]] })
    }
}

impl Evt {
    /// The event body that the first bytes of `bytes` spell, if there are
    /// enough.
    pub open spec fn spec_decode(bytes: Seq<u8>) -> Option<Evt> {
        if bytes.len() >= EVT_SIZE {
            Some(Evt { evt_code: bytes[0], payload_len: bytes[1], payload: [bytes[2]] })
        } else {
            None
        }
    }

    /// Reads the fixed part of an event body from the start of `bytes`.
    pub fn decode(bytes: &[u8]) -> (r: Option<Evt>)
        ensures
            r == Evt::spec_decode(bytes@),
    {
        if bytes.len() < EVT_SIZE {
            return None;
        }
        Some(Evt { evt_code: bytes[0], payload_len: bytes[1], payload: [bytes[2]] })
    }
}

impl EvtSerial {
    /// The event that the first bytes of `bytes` spell, if there are enough.
    pub open spec fn spec_decode(bytes: Seq<u8>) -> Option<EvtSerial> {
        if bytes.len() >= EVT_SERIAL_SIZE {
            Some(
                EvtSerial {
                    kind: bytes[0],
                    evt: Evt { evt_code: bytes[1], payload_len: bytes[2], payload: [bytes[3]] },
                },
            )
        } else {
            None
        }
    }

    /// Reads the fixed part of an event from the start of `bytes`.
    pub fn decode(bytes: &[u8]) -> (r: Option<EvtSerial>)
        ensures
            r == EvtSerial::spec_decode(bytes@),
    {
        if bytes.len() < EVT_SERIAL_SIZE {
            return None;
        }
        Some(
            EvtSerial {
                kind: bytes[0],
                evt: Evt { evt_code: bytes[1], payload_len: bytes[2], payload: [bytes[3]] },
            },
        )
    }

    /// An event is its type byte followed by its body.
    pub proof fn lemma_decode_nests(bytes: Seq<u8>)
        requires
            bytes.len() >= EVT_SERIAL_SIZE,
        ensures
            EvtSerial::spec_decode(bytes) matches Some(serial) && serial.kind == bytes[0] && Some(
                serial.evt,
            ) == Evt::spec_decode(bytes.skip(1)),
    {
    }
}

impl EvtPacket {
    /// The packet that the first bytes of `bytes` spell, if there are enough.
    pub open spec fn spec_decode(bytes: Seq<u8>) -> Option<EvtPacket> {
        if bytes.len() >= EVT_PACKET_SIZE {
            Some(
                EvtPacket {
                    header: PacketHeader {
                        next: spec_u32_le(bytes[0], bytes[1], bytes[2], bytes[3]),
                        prev: spec_u32_le(bytes[4], bytes[5], bytes[6], bytes[7]),
                    },
                    evt_serial: EvtSerial {
                        kind: bytes[8],
                        evt: Evt {
                            evt_code: bytes[9],
                            payload_len: bytes[10],
                            payload: [bytes[11]],
                        },
                    },
                },
            )
        } else {
            None
        }
    }

    /// Reads the fixed part of a packet from the start of `bytes`.
    pub fn decode(bytes: &[u8]) -> (r: Option<EvtPacket>)
        ensures
            r == EvtPacket::spec_decode(bytes@),
    {
        if bytes.len() < EVT_PACKET_SIZE {
            return None;
        }
        Some(EvtPacket::read(bytes))
    }

    /// Reads the fixed part of a packet from bytes known to hold it.
    pub(crate) fn read(bytes: &[u8]) -> (packet: EvtPacket)
        requires
            bytes@.len() >= EVT_PACKET_SIZE,
        ensures
            Some(packet) == EvtPacket::spec_decode(bytes@),
    {
        EvtPacket {
            header: PacketHeader {
                next: u32_le(bytes[0], bytes[1], bytes[2], bytes[3]),
                prev: u32_le(bytes[4], bytes[5], bytes[6], bytes[7]),
            },
            evt_serial: EvtSerial {
                kind: bytes[8],
                evt: Evt { evt_code: bytes[9], payload_len: bytes[10], payload: [bytes[11]] },
            },
        }
    }

    /// A packet is the frame header followed by the event.
    pub proof fn lemma_decode_nests(bytes: Seq<u8>)
        requires
            bytes.len() >= EVT_PACKET_SIZE,
        ensures
            EvtPacket::spec_decode(bytes) matches Some(packet) && Some(packet.header)
                == PacketHeader::spec_decode(bytes) && Some(packet.evt_serial)
                == EvtSerial::spec_decode(bytes.skip(TL_PACKET_HEADER_SIZE as int)),
    {
    }
}

} // verus!
