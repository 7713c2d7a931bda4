//! Bytes that were read from a stream too early and must be read again.
//!
//! Sniffing a tunnelled connection consumes its first bytes. A [`Rewind`]
//! keeps them, and the stream adapter built on it hands them out before it
//! reads from the stream again, so that whoever takes the stream next sees it
//! from its first byte.

use vstd::prelude::*;

verus! {

/// The bytes that stand in front of a stream.
#[derive(Clone, Debug)]
pub struct Rewind {
    bytes: Vec<u8>,
    next: usize,
}

/// What a read finds in front of the stream.
#[derive(Clone, Debug, PartialEq, Eq)]
pub enum Replay {
    /// These bytes; the stream itself is not touched by this read.
    Bytes(Vec<u8>),
    /// Nothing: the read goes to the stream.
    Exhausted,
}

/// How many bytes a read with room for `capacity` bytes takes out of `pending`
/// buffered ones.
pub open spec fn taken(pending: nat, capacity: nat) -> nat {
    if pending <= capacity {
        pending
    } else {
        capacity
    }
}

/// `replay` is what a read with room for `capacity` bytes gets when `before`
/// is buffered, and `after` is what is buffered afterwards.
pub open spec fn serves(before: Seq<u8>, capacity: nat, replay: Replay, after: Seq<u8>) -> bool {
    let count = taken(before.len(), capacity) as int;
    if before.len() == 0 {
        replay is Exhausted && after == before
    } else {
        match replay {
            Replay::Bytes(bytes) => bytes@ == before.take(count) && after == before.skip(count),
            Replay::Exhausted => false,
        }
    }
}

impl View for Rewind {
    type V = Seq<u8>;

    /// The bytes that are still to be handed out, in their order.
    closed spec fn view(&self) -> Seq<u8> {
        self.bytes@.skip(self.next as int)
    }
}

impl Rewind {
    /// The bookkeeping is sound.
    pub closed spec fn well_formed(&self) -> bool {
        self.next <= self.bytes.len()
    }

    /// Nothing stands in front of the stream.
    pub fn new() -> (rewind: Rewind)
        ensures
            rewind.well_formed(),
            rewind@ == Seq::<u8>::empty(),
    {
        Rewind { bytes: Vec::new(), next: 0 }
    }

    /// `prefix` stands in front of the stream.
    pub fn new_buffered(prefix: Vec<u8>) -> (rewind: Rewind)
        ensures
            rewind.well_formed(),
            rewind@ == prefix@,
    {
        Rewind { bytes: prefix, next: 0 }
    }

    /// The number of bytes that are still to be handed out.
    pub fn pending(&self) -> (count: usize)
        requires
            self.well_formed(),
        ensures
            count == self@.len(),
    {
        self.bytes.len() - self.next
    }

    /// Serves a read that has room for `capacity` bytes.
    ///
    /// While bytes are buffered the read gets as many of them as it has room
    /// for, in their order, and the stream is left alone. Once none are left,
    /// every read goes to the stream.
    pub fn read(&mut self, capacity: usize) -> (replay: Replay)
        requires
            old(self).well_formed(),
        ensures
            final(self).well_formed(),
            serves(old(self)@, capacity as nat, replay, final(self)@),
    {
        let available = self.bytes.len() - self.next;
        if available == 0 {
            return Replay::Exhausted;
        }
        let count = if available <= capacity {
            available
        } else {
            capacity
        };
        let start = self.next;
        let mut bytes: Vec<u8> = Vec::new();
        let mut copied: usize = 0;
        while copied < count
            invariant
                copied <= count,
                start + count <= self.bytes.len(),
                self.next == start,
                *self == *old(self),
                bytes@.len() == copied,
                forall|i: int| 0 <= i < copied ==> bytes@[i] == self.bytes@[start + i],
            decreases count - copied,
        {
            bytes.push(self.bytes[start + copied]);
            copied += 1;
        }
        self.next = start + count;
        assert(bytes@ =~= old(self)@.take(count as int));
        assert(self@ =~= old(self)@.skip(count as int));
        Replay::Bytes(bytes)
    }
}

/// What a row of reads with these capacities gets out of `pending` buffered
/// bytes, all in all.
pub open spec fn replayed(pending: Seq<u8>, capacities: Seq<nat>) -> Seq<u8>
    decreases capacities.len(),
{
    if capacities.len() == 0 {
        Seq::empty()
    } else {
        let first = taken(pending.len(), capacities[0]) as int;
        pending.take(first) + replayed(pending.skip(first), capacities.skip(1))
    }
}

/// What is still buffered after a row of reads with these capacities.
pub open spec fn remaining(pending: Seq<u8>, capacities: Seq<nat>) -> Seq<u8>
    decreases capacities.len(),
{
    if capacities.len() == 0 {
        pending
    } else {
        let first = taken(pending.len(), capacities[0]) as int;
        remaining(pending.skip(first), capacities.skip(1))
    }
}

/// The room that a row of reads has, all in all.
pub open spec fn room(capacities: Seq<nat>) -> nat {
    capacities.fold_left(0nat, |sum: nat, capacity: nat| sum + capacity)
}

/// Whatever the reads ask for, they get the buffered bytes from the first on,
/// each once and in order: what was handed out and what is still buffered
/// make up the prefix that was put in.
pub proof fn law_replayed_in_order(pending: Seq<u8>, capacities: Seq<nat>)
    ensures
        replayed(pending, capacities) + remaining(pending, capacities) == pending,
    decreases capacities.len(),
{
    if capacities.len() > 0 {
        let first = taken(pending.len(), capacities[0]) as int;
        let rest = pending.skip(first);
        let later = capacities.skip(1);
        law_replayed_in_order(rest, later);
        assert(replayed(pending, capacities) + remaining(pending, capacities) =~= pending.take(
            first,
        ) + (replayed(rest, later) + remaining(rest, later)));
    }
}

/// Reads that together have room for the whole prefix leave nothing buffered.
pub proof fn law_replay_completes(pending: Seq<u8>, capacities: Seq<nat>)
    requires
        room(capacities) >= pending.len(),
    ensures
        remaining(pending, capacities).len() == 0,
        replayed(pending, capacities) == pending,
{
    lemma_remaining_len(pending, capacities);
    law_replayed_in_order(pending, capacities);
}

proof fn lemma_remaining_len(pending: Seq<u8>, capacities: Seq<nat>)
    ensures
        remaining(pending, capacities).len() == if room(capacities) >= pending.len() {
            0
        } else {
            pending.len() - room(capacities)
        },
    decreases capacities.len(),
{
    if capacities.len() > 0 {
        let first = taken(pending.len(), capacities[0]) as int;
        lemma_remaining_len(pending.skip(first), capacities.skip(1));
        lemma_room_split(capacities);
    }
}

proof fn lemma_room_split(capacities: Seq<nat>)
    requires
        capacities.len() > 0,
    ensures
        room(capacities) == capacities[0] + room(capacities.skip(1)),
    decreases capacities.len(),
{
    if capacities.len() == 1 {
        reveal_with_fuel(Seq::fold_left, 2);
    } else {
        let rest = capacities.skip(1);
        lemma_room_split(capacities.drop_last());
        assert(capacities.drop_last().skip(1) =~= rest.drop_last());
    }
}

} // verus!
