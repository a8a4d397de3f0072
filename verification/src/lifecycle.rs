//! The life of a handle, from construction to the release of its buffer.
//!
//! A handle is constructed, is read any number of times, and ends. Its end is
//! the one event that has the buffer returned to the pool. The functions here
//! decide, for each thing that happens to a handle, what state it is in next
//! and whether the release channel is to be called; whoever drives the
//! release channel performs what they decide.

use vstd::prelude::*;

verus! {

/// Where a handle stands in its life.
#[derive(Clone, Copy, Debug, PartialEq, Eq, Structural)]
pub enum Lifecycle {
    /// Over a packet, not yet read.
    Constructed,
    /// Over a packet, read at least once.
    Readable,
    /// Ended; the buffer has been given back. Nothing leads out of this
    /// state.
    Released,
}

/// What happens to a handle.
#[derive(Clone, Copy, Debug, PartialEq, Eq, Structural)]
pub enum Operation {
    /// The packet is looked at: a snapshot, a measurement or a copy,
    /// whether it succeeds or fails.
    Read,
    /// The handle's life ends.
    EndOfLife,
}

/// The outcome of one operation: the next state, and the location to hand to
/// the release channel if it is to be called.
#[derive(Clone, Copy, Debug, PartialEq, Eq, Structural)]
pub struct Transition {
    pub next: Lifecycle,
    pub release: Option<usize>,
}

/// The outcome of `op` on a handle in `state` that owns `location`.
pub open spec fn spec_step(state: Lifecycle, op: Operation, location: usize) -> Transition {
    match (state, op) {
        (Lifecycle::Released, _) => Transition { next: Lifecycle::Released, release: None },
        (_, Operation::Read) => Transition { next: Lifecycle::Readable, release: None },
        (_, Operation::EndOfLife) => Transition {
            next: Lifecycle::Released,
            release: Some(location),
        },
    }
}

/// The locations handed to the release channel, in order, while `ops` happen
/// one after another to a handle that starts in `state` and owns `location`.
pub open spec fn spec_releases(state: Lifecycle, ops: Seq<Operation>, location: usize) -> Seq<
    usize,
>
    decreases ops.len(),
{
    if ops.len() == 0 {
        Seq::empty()
    } else {
        let t = spec_step(state, ops[0], location);
        let rest = spec_releases(t.next, ops.skip(1), location);
        match t.release {
            Some(released) => seq![released] + rest,
            None => rest,
        }
    }
}

/// The state of a handle that started in `state` after `ops`.
pub open spec fn spec_state_after(state: Lifecycle, ops: Seq<Operation>, location: usize) -> Lifecycle
    decreases ops.len(),
{
    if ops.len() == 0 {
        state
    } else {
        spec_state_after(spec_step(state, ops[0], location).next, ops.skip(1), location)
    }
}

/// Decides what `op` does to a handle in `state` that owns `location`. A
/// read releases nothing. The end of life of a handle that has not ended
/// releases its location. Nothing that happens after the end releases
/// anything.
pub fn step(state: Lifecycle, op: Operation, location: usize) -> (t: Transition)
    ensures
        t == spec_step(state, op, location),
        t.release is Some <==> (state != Lifecycle::Released && op == Operation::EndOfLife),
        t.release is Some ==> t.release == Some(location) && t.next == Lifecycle::Released,
{
    match state {
        Lifecycle::Released => Transition { next: Lifecycle::Released, release: None },
        _ => match op {
            Operation::Read => Transition { next: Lifecycle::Readable, release: None },
            Operation::EndOfLife => Transition {
                next: Lifecycle::Released,
                release: Some(location),
            },
        },
    }
}

/// Once a handle has ended, whatever happens releases nothing and the handle
/// stays ended.
pub proof fn lemma_released_is_terminal(ops: Seq<Operation>, location: usize)
    ensures
        spec_releases(Lifecycle::Released, ops, location) == Seq::<usize>::empty(),
        spec_state_after(Lifecycle::Released, ops, location) == Lifecycle::Released,
    decreases ops.len(),
{
    if ops.len() > 0 {
        lemma_released_is_terminal(ops.skip(1), location);
    }
}

/// Reads alone, however many, release nothing and leave the handle alive: a
/// handle whose life never ends never gives its buffer back.
pub proof fn lemma_reads_release_nothing(state: Lifecycle, reads: Seq<Operation>, location: usize)
    requires
        state != Lifecycle::Released,
        forall|i: int| 0 <= i < reads.len() ==> reads[i] == Operation::Read,
    ensures
        spec_releases(state, reads, location) == Seq::<usize>::empty(),
        spec_state_after(state, reads, location) != Lifecycle::Released,
    decreases reads.len(),
{
    if reads.len() > 0 {
        lemma_reads_release_nothing(Lifecycle::Readable, reads.skip(1), location);
    }
}

/// A handle's life releases its location exactly once: after any number of
/// reads, none included, the end of life hands the handle's own location to
/// the release channel, and nothing that follows hands over anything more.
pub proof fn lemma_exactly_one_release(
    reads: Seq<Operation>,
    after: Seq<Operation>,
    location: usize,
)
    requires
        forall|i: int| 0 <= i < reads.len() ==> reads[i] == Operation::Read,
    ensures
        spec_releases(
            Lifecycle::Constructed,
            reads + seq![Operation::EndOfLife] + after,
            location,
        ) == seq![location],
        spec_state_after(
            Lifecycle::Constructed,
            reads + seq![Operation::EndOfLife] + after,
            location,
        ) == Lifecycle::Released,
{
    lemma_one_release_from(Lifecycle::Constructed, reads, after, location);
}

/// The same, from any state in which the handle has not ended.
pub proof fn lemma_one_release_from(
    state: Lifecycle,
    reads: Seq<Operation>,
    after: Seq<Operation>,
    location: usize,
)
    requires
        state != Lifecycle::Released,
        forall|i: int| 0 <= i < reads.len() ==> reads[i] == Operation::Read,
    ensures
        spec_releases(state, reads + seq![Operation::EndOfLife] + after, location) == seq![
            location,
        ],
        spec_state_after(state, reads + seq![Operation::EndOfLife] + after, location)
            == Lifecycle::Released,
    decreases reads.len(),
{
    let ops = reads + seq![Operation::EndOfLife] + after;
    if reads.len() == 0 {
        assert(ops.skip(1) =~= after);
        lemma_released_is_terminal(after, location);
        assert(seq![location] + Seq::<usize>::empty() =~= seq![location]);
    } else {
        assert(ops.skip(1) =~= reads.skip(1) + seq![Operation::EndOfLife] + after);
        lemma_one_release_from(Lifecycle::Readable, reads.skip(1), after, location);
    }
}

/// Whatever happens to a handle, and in whatever order, its location is
/// released at most once, and nothing else ever is.
pub proof fn lemma_at_most_one_release(state: Lifecycle, ops: Seq<Operation>, location: usize)
    ensures
        spec_releases(state, ops, location).len() <= 1,
        forall|i: int|
            0 <= i < spec_releases(state, ops, location).len() ==> spec_releases(
                state,
                ops,
                location,
            )[i] == location,
        spec_releases(state, ops, location).len() == 1 <==> (state != Lifecycle::Released
            && ops.contains(Operation::EndOfLife)),
    decreases ops.len(),
{
    if ops.len() > 0 {
        let t = spec_step(state, ops[0], location);
        lemma_at_most_one_release(t.next, ops.skip(1), location);
        lemma_released_is_terminal(ops.skip(1), location);
        if ops.skip(1).contains(Operation::EndOfLife) {
            let j = choose|j: int| 0 <= j < ops.skip(1).len() && ops.skip(1)[j] == Operation::EndOfLife;
            assert(ops[j + 1] == Operation::EndOfLife);
        }
        if ops.contains(Operation::EndOfLife) && ops[0] != Operation::EndOfLife {
            let j = choose|j: int| 0 <= j < ops.len() && ops[j] == Operation::EndOfLife;
            assert(ops.skip(1)[j - 1] == Operation::EndOfLife);
        }
    }
}

} // verus!
