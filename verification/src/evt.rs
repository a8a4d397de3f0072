//! The handle that owns one event packet in shared memory.

use vstd::prelude::*;
use crate::classifier::{
    classify,
    copy_into,
    measured_length,
    spec_classify,
    spec_copy_contents,
    spec_copy_result,
    spec_holds_packet,
    spec_measured_length,
    spec_serial_bytes,
};
use crate::consts::TlPacketType;
use crate::error::EvtError;
use crate::layout::EvtPacket;
use crate::lifecycle::{spec_step, step, Lifecycle, Operation, Transition};

verus! {

/// Sole owner of one packet that the co-processor wrote into shared memory.
///
/// The handle reads the packet and never writes it. It is neither `Clone`
/// nor `Copy`: whoever holds it is the one party that may ask for the
/// packet's buffer to be returned to the pool, by handing the handle's
/// location to the release channel when the handle's life ends.
pub struct EvtBox<'a> {
    location: usize,
    memory: &'a [u8],
}

impl<'a> View for EvtBox<'a> {
    type V = Seq<u8>;

    /// The packet's memory, from the first byte of its frame header.
    closed spec fn view(&self) -> Seq<u8> {
        self.memory@
    }
}

impl<'a> EvtBox<'a> {
    #[verifier::type_invariant]
    spec fn holds_whole_packet(self) -> bool {
        spec_holds_packet(self.memory@)
    }

    /// The place in shared memory that the packet occupies, which is what
    /// the release channel is given.
    pub closed spec fn spec_location(&self) -> usize {
        self.location
    }

    /// Takes ownership of the packet at `location`, whose bytes are `memory`.
    /// The caller sees to it that no other live handle is over the same
    /// location.
    pub fn new(location: usize, memory: &'a [u8]) -> (evt_box: Self)
        requires
            spec_holds_packet(memory@),
        ensures
            evt_box@ == memory@,
            evt_box.spec_location() == location,
    {
        EvtBox { location, memory }
    }

    /// Returns the location that the handle owns.
    pub fn location(&self) -> (location: usize)
        ensures
            location == self.spec_location(),
    {
        self.location
    }

    /// Decides what `op` does to this handle when it is in `state`: the
    /// state that follows and, at the end of its life, its own location as
    /// the one to release.
    pub fn advance(&self, state: Lifecycle, op: Operation) -> (t: Transition)
        ensures
            t == spec_step(state, op, self.spec_location()),
            t.release is Some <==> (state != Lifecycle::Released && op == Operation::EndOfLife),
            t.release is Some ==> t.release == Some(self.spec_location()),
    {
        step(state, op, self.location)
    }

    /// Returns the packet's family, read from its type byte alone.
    pub fn kind(&self) -> (r: Result<TlPacketType, EvtError>)
        ensures
            spec_holds_packet(self@),
            r == spec_classify(self@),
            r is Err ==> r == Err::<TlPacketType, EvtError>(EvtError::UnrecognizedKind),
    {
        proof {
            use_type_invariant(self);
        }
        classify(self.memory)
    }

    /// Copies the fixed part of the packet out of shared memory and returns
    /// it as an event structure. Of the payload only the first byte is in
    /// it.
    pub fn evt(&self) -> (packet: EvtPacket)
        ensures
            spec_holds_packet(self@),
            Some(packet) == EvtPacket::spec_decode(self@),
    {
        proof {
            use_type_invariant(self);
        }
        EvtPacket::read(self.memory)
    }

    /// Returns the size of a buffer required to hold this event.
    pub fn size(&self) -> (r: Result<usize, EvtError>)
        ensures
            spec_holds_packet(self@),
            r == spec_measured_length(self@),
            r is Err ==> r == Err::<usize, EvtError>(EvtError::UnrecognizedKind),
    {
        proof {
            use_type_invariant(self);
        }
        measured_length(self.memory)
    }

    /// Writes the packet, without its frame header, into the provided
    /// buffer. Returns the number of bytes that were written. Returns an
    /// error if the packet's kind is unknown or if the buffer is too small,
    /// and then writes nothing.
    pub fn copy_into_slice(&self, buf: &mut [u8]) -> (r: Result<usize, EvtError>)
        ensures
            spec_holds_packet(self@),
            r == spec_copy_result(self@, old(buf)@.len()),
            final(buf)@ == spec_copy_contents(self@, old(buf)@),
            final(buf)@.len() == old(buf)@.len(),
            r is Err ==> final(buf)@ == old(buf)@,
            r matches Ok(n) ==> final(buf)@.take(n as int) == spec_serial_bytes(self@),
    {
        proof {
            use_type_invariant(self);
        }
        copy_into(self.memory, buf)
    }
}

} // verus!
