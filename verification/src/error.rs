//! The conditions under which reading a packet fails.

use vstd::prelude::*;

verus! {

/// Why a classification, a measurement or a copy did not succeed. Each is
/// recoverable and leaves the packet, and the caller's buffer, as they were.
#[derive(Clone, Copy, Debug, PartialEq, Eq, Structural)]
pub enum EvtError {
    /// The leading type byte names no known packet family.
    UnrecognizedKind,
    /// The caller's buffer is shorter than the packet's measured length.
    DestinationTooSmall,
}

} // verus!
