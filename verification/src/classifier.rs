//! Classification and measurement of a packet in shared memory, and its
//! extraction into a buffer of the caller.
//!
//! The functions here take the packet's memory from its first byte, the start
//! of the frame header. How much of that memory belongs to the packet follows
//! from the type byte and from one length field, both within the first
//! thirteen bytes: nothing is scanned.

use vstd::prelude::*;
use vstd::std_specs::convert::TryFromSpec;
use crate::consts::{
    TlPacketType,
    TL_ACL_DATA_HEADER_SIZE,
    TL_EVT_HEADER_SIZE,
    TL_PACKET_HEADER_SIZE,
};
use crate::error::EvtError;
use crate::layout::{spec_u16_le, u16_le, EVT_PACKET_SIZE};

verus! {

/// Offset of the type byte.
pub const KIND_OFFSET: usize = 8;

/// Offset of the payload length of an event.
pub const EVT_PAYLOAD_LEN_OFFSET: usize = 10;

/// Offset of the payload of an event.
pub const EVT_PAYLOAD_OFFSET: usize = 11;

/// Offset of the 16-bit length of a data record.
pub const ACL_DATA_LENGTH_OFFSET: usize = 11;

/// Offset of the data of a data record.
pub const ACL_DATA_OFFSET: usize = 13;

/// The family of the packet at the start of `memory`, by its type byte.
pub open spec fn spec_classify(memory: Seq<u8>) -> Result<TlPacketType, EvtError> {
    TlPacketType::try_from_spec(memory[KIND_OFFSET as int])
}

/// The number of payload bytes that an event declares.
pub open spec fn spec_evt_payload_len(memory: Seq<u8>) -> u8 {
    memory[EVT_PAYLOAD_LEN_OFFSET as int]
}

/// The number of data bytes that a data record declares.
pub open spec fn spec_acl_data_length(memory: Seq<u8>) -> u16 {
    spec_u16_le(memory[ACL_DATA_LENGTH_OFFSET as int], memory[ACL_DATA_LENGTH_OFFSET + 1])
}

/// The number of bytes, counted from the type byte, that a packet of family
/// `kind` at the start of `memory` takes: for a data record its declared
/// length and five bytes, for an event its declared payload length and three.
pub open spec fn spec_length_as(memory: Seq<u8>, kind: TlPacketType) -> usize {
    if kind.spec_is_acl_data() {
        (spec_acl_data_length(memory) + TL_ACL_DATA_HEADER_SIZE) as usize
    } else {
        (spec_evt_payload_len(memory) + TL_EVT_HEADER_SIZE) as usize
    }
}

/// The measured length of the packet at the start of `memory`, or why it has
/// none.
pub open spec fn spec_measured_length(memory: Seq<u8>) -> Result<usize, EvtError> {
    match spec_classify(memory) {
        Ok(kind) => Ok(spec_length_as(memory, kind)),
        Err(e) => Err(e),
    }
}

/// Whether `memory` holds the fields that classification and measurement
/// read: the fixed part of an event packet and, for a data record, its
/// length field.
pub open spec fn spec_holds_fixed_part(memory: Seq<u8>) -> bool {
    &&& memory.len() >= EVT_PACKET_SIZE
    &&& spec_classify(memory) == Ok::<TlPacketType, EvtError>(TlPacketType::AclData)
        ==> memory.len() >= ACL_DATA_OFFSET
}

/// Whether `memory` holds a whole packet: its fixed part and, where its
/// family is known, every byte that it declares.
pub open spec fn spec_holds_packet(memory: Seq<u8>) -> bool {
    &&& spec_holds_fixed_part(memory)
    &&& spec_measured_length(memory) matches Ok(n) ==> memory.len() >= TL_PACKET_HEADER_SIZE + n
}

/// The bytes that the measured length counts: the packet without its frame
/// header. Empty where the packet has no measured length.
pub open spec fn spec_serial_bytes(memory: Seq<u8>) -> Seq<u8> {
    match spec_measured_length(memory) {
        Ok(n) => memory.subrange(TL_PACKET_HEADER_SIZE as int, TL_PACKET_HEADER_SIZE + n),
        Err(_) => Seq::empty(),
    }
}

/// What copying the packet at the start of `memory` into a buffer of `room`
/// bytes returns.
pub open spec fn spec_copy_result(memory: Seq<u8>, room: nat) -> Result<usize, EvtError> {
    match spec_measured_length(memory) {
        Ok(n) => if room < n {
            Err(EvtError::DestinationTooSmall)
        } else {
            Ok(n)
        },
        Err(e) => Err(e),
    }
}

/// What a buffer that held `before` holds after the packet at the start of
/// `memory` was copied into it: the packet's bytes in front and the rest as
/// it was, or all as it was where the copy fails.
pub open spec fn spec_copy_contents(memory: Seq<u8>, before: Seq<u8>) -> Seq<u8> {
    match spec_copy_result(memory, before.len()) {
        Ok(n) => spec_serial_bytes(memory) + before.skip(n as int),
        Err(_) => before,
    }
}

/// Reads the type byte and maps it to its family. Nothing but that byte is
/// read.
pub fn classify(memory: &[u8]) -> (r: Result<TlPacketType, EvtError>)
    requires
        memory@.len() > KIND_OFFSET,
    ensures
        r == spec_classify(memory@),
        r is Err ==> r == Err::<TlPacketType, EvtError>(EvtError::UnrecognizedKind),
        r matches Ok(kind) ==> kind.spec_code() == memory@[KIND_OFFSET as int],
{
    TlPacketType::try_from(memory[KIND_OFFSET])
}

/// Tells whether `memory` holds a whole packet.
pub fn holds_packet(memory: &[u8]) -> (ok: bool)
    ensures
        ok == spec_holds_packet(memory@),
{
    if memory.len() < EVT_PACKET_SIZE {
        return false;
    }
    match classify(memory) {
        Ok(kind) => {
            if kind.is_acl_data() {
                if memory.len() < ACL_DATA_OFFSET {
                    return false;
                }
                let declared: usize = u16_le(
                    memory[ACL_DATA_LENGTH_OFFSET],
                    memory[ACL_DATA_LENGTH_OFFSET + 1],
                ) as usize;
                memory.len() - ACL_DATA_OFFSET >= declared
            } else {
                let declared: usize = memory[EVT_PAYLOAD_LEN_OFFSET] as usize;
                memory.len() - EVT_PAYLOAD_OFFSET >= declared
            }
        },
        Err(_) => true,
    }
}

/// Returns the size of a buffer required to hold the packet: for a data
/// record its declared length and five bytes, for an event its declared
/// payload length and three. Fails, before any length is read, where the
/// type byte names no family.
pub fn measured_length(memory: &[u8]) -> (r: Result<usize, EvtError>)
    requires
        spec_holds_fixed_part(memory@),
    ensures
        r == spec_measured_length(memory@),
        r is Err ==> r == Err::<usize, EvtError>(EvtError::UnrecognizedKind),
        r is Ok <==> spec_classify(memory@) is Ok,
{
    let kind = classify(memory)?;
    if kind.is_acl_data() {
        let declared: usize = u16_le(
            memory[ACL_DATA_LENGTH_OFFSET],
            memory[ACL_DATA_LENGTH_OFFSET + 1],
        ) as usize;
        Ok(declared + TL_ACL_DATA_HEADER_SIZE)
    } else {
        let declared: usize = memory[EVT_PAYLOAD_LEN_OFFSET] as usize;
        Ok(declared + TL_EVT_HEADER_SIZE)
    }
}

/// Writes the packet, without its frame header, to the front of
/// `destination` and returns the number of bytes written, which is the
/// packet's measured length. Fails where the type byte names no family or
/// where `destination` is shorter than the measured length; `destination` is
/// then left untouched.
pub fn copy_into(memory: &[u8], destination: &mut [u8]) -> (r: Result<usize, EvtError>)
    requires
        spec_holds_packet(memory@),
    ensures
        r == spec_copy_result(memory@, old(destination)@.len()),
        final(destination)@ == spec_copy_contents(memory@, old(destination)@),
        final(destination)@.len() == old(destination)@.len(),
        r is Err ==> final(destination)@ == old(destination)@,
        r matches Ok(n) ==> final(destination)@.take(n as int) == spec_serial_bytes(memory@),
{
    let len: usize = measured_length(memory)?;
    if len > destination.len() {
        return Err(EvtError::DestinationTooSmall);
    }
    let mut i: usize = 0;
    while i < len
        invariant
            i <= len,
            len <= destination@.len(),
            len <= u16::MAX + TL_ACL_DATA_HEADER_SIZE,
            TL_PACKET_HEADER_SIZE + len <= memory@.len(),
            destination@.len() == old(destination)@.len(),
            forall|j: int| 0 <= j < i ==> destination@[j] == memory@[TL_PACKET_HEADER_SIZE + j],
            forall|j: int| i <= j < destination@.len() ==> destination@[j] == old(destination)@[j],
        decreases len - i,
    {
        destination[i] = memory[TL_PACKET_HEADER_SIZE + i];
        i += 1;
    }
    assert(destination@ =~= spec_serial_bytes(memory@) + old(destination)@.skip(len as int));
    assert(destination@.take(len as int) =~= spec_serial_bytes(memory@));
    Ok(len)
}

/// An event's measured length is its declared payload length and the three
/// bytes that precede the payload; a data record's is its declared length
/// and five bytes.
pub proof fn lemma_measured_length_by_family(memory: Seq<u8>)
    requires
        spec_classify(memory) is Ok,
    ensures
        spec_measured_length(memory) is Ok,
        spec_classify(memory)->Ok_0 == TlPacketType::AclData ==> spec_measured_length(memory)->Ok_0
            == memory[ACL_DATA_LENGTH_OFFSET as int] + 256 * memory[ACL_DATA_LENGTH_OFFSET + 1] + 5,
        spec_classify(memory)->Ok_0 != TlPacketType::AclData ==> spec_measured_length(memory)->Ok_0
            == memory[EVT_PAYLOAD_LEN_OFFSET as int] + 3,
{
}

/// Copying a packet into a buffer of exactly its measured length succeeds,
/// returns that length and fills the buffer with the packet's bytes.
pub proof fn lemma_copy_exact_fit(memory: Seq<u8>, before: Seq<u8>)
    requires
        spec_holds_packet(memory),
        spec_measured_length(memory) is Ok,
        before.len() == spec_measured_length(memory)->Ok_0,
    ensures
        spec_copy_result(memory, before.len()) == spec_measured_length(memory),
        spec_copy_contents(memory, before) == spec_serial_bytes(memory),
        spec_copy_contents(memory, before) == memory.subrange(
            TL_PACKET_HEADER_SIZE as int,
            TL_PACKET_HEADER_SIZE + before.len(),
        ),
{
    assert(before.skip(before.len() as int) =~= Seq::<u8>::empty());
    assert(spec_serial_bytes(memory) + Seq::<u8>::empty() =~= spec_serial_bytes(memory));
}

/// Copying a packet into a buffer one byte shorter than its measured length
/// fails for want of room and leaves the buffer as it was.
pub proof fn lemma_copy_one_byte_short(memory: Seq<u8>, before: Seq<u8>)
    requires
        spec_holds_packet(memory),
        spec_measured_length(memory) is Ok,
        before.len() + 1 == spec_measured_length(memory)->Ok_0,
    ensures
        spec_copy_result(memory, before.len()) == Err::<usize, EvtError>(
            EvtError::DestinationTooSmall,
        ),
        spec_copy_contents(memory, before) == before,
{
}

/// A copy succeeds exactly where the family is known and the buffer has room
/// for the measured length, and then what is written is the measured length
/// long.
pub proof fn lemma_copy_succeeds_iff_room(memory: Seq<u8>, before: Seq<u8>)
    requires
        spec_holds_packet(memory),
    ensures
        spec_copy_result(memory, before.len()) is Ok <==> (spec_measured_length(memory) matches Ok(n)
            && n <= before.len()),
        spec_copy_result(memory, before.len()) is Ok ==> spec_serial_bytes(memory).len()
            == spec_copy_result(memory, before.len())->Ok_0,
        spec_copy_contents(memory, before).len() == before.len(),
{
}

/// Where the type byte names no family, classification, measurement and copy
/// all fail as an unrecognized kind, the buffer stays as it was, and the
/// outcome is the same whatever the bytes after the type byte are.
pub proof fn lemma_unrecognized_kind_fails_everywhere(
    memory: Seq<u8>,
    before: Seq<u8>,
    other: Seq<u8>,
)
    requires
        TlPacketType::spec_from_code(memory[KIND_OFFSET as int]) is None,
        other[KIND_OFFSET as int] == memory[KIND_OFFSET as int],
    ensures
        spec_classify(memory) == Err::<TlPacketType, EvtError>(EvtError::UnrecognizedKind),
        spec_measured_length(memory) == Err::<usize, EvtError>(EvtError::UnrecognizedKind),
        spec_copy_result(memory, before.len()) == Err::<usize, EvtError>(
            EvtError::UnrecognizedKind,
        ),
        spec_copy_contents(memory, before) == before,
        spec_classify(other) == spec_classify(memory),
        spec_measured_length(other) == spec_measured_length(memory),
        spec_copy_result(other, before.len()) == spec_copy_result(memory, before.len()),
        spec_copy_contents(other, before) == before,
{
}

/// The measured length is read from the first thirteen bytes alone: two
/// memories that agree there measure alike.
pub proof fn lemma_measured_length_reads_fixed_part(memory: Seq<u8>, other: Seq<u8>)
    requires
        forall|i: int| KIND_OFFSET <= i < ACL_DATA_OFFSET ==> memory[i] == other[i],
    ensures
        spec_classify(other) == spec_classify(memory),
        spec_measured_length(other) == spec_measured_length(memory),
{
}

} // verus!
