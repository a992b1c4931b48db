//! A bounded first-in first-out queue of encoded packets that can be closed.
//!
//! The queue itself never blocks: a demuxer that finds it full, or a decoder
//! that finds it empty and open, waits (in the application, on a condition
//! variable) and tries again.
use std::collections::VecDeque;

use vstd::prelude::*;

use crate::frame_queue::PushOutcome;
use crate::stream::Packet;

verus! {

/// What a decoder gets from a packet queue.
pub enum PopOutcome<T> {
    /// The oldest queued packet.
    Item(T),
    /// Nothing is queued yet, but the queue is open.
    Wait,
    /// Nothing is queued and the queue is closed: the stream is over.
    Finished,
}

/// A bounded queue of encoded packets between a demuxer and a decoder.
pub struct PacketQueue {
    packets: VecDeque<Packet>,
    capacity: usize,
    closed: bool,
}

impl PacketQueue {
    /// The packets in the queue, oldest first.
    pub closed spec fn items(&self) -> Seq<Packet> {
        self.packets@
    }

    /// The most packets the queue holds.
    pub closed spec fn cap(&self) -> nat {
        self.capacity as nat
    }

    /// Whether the queue was closed.
    pub closed spec fn is_shut(&self) -> bool {
        self.closed
    }

    /// The queue never holds more packets than its capacity.
    pub open spec fn wf(&self) -> bool {
        self.items().len() <= self.cap()
    }

    /// Create an empty, open queue holding at most `capacity` packets.
    pub fn new(capacity: usize) -> (r: Self)
        ensures
            r.wf(),
            r.items() == Seq::<Packet>::empty(),
            r.cap() == capacity,
            !r.is_shut(),
    {
        PacketQueue { packets: VecDeque::with_capacity(capacity), capacity, closed: false }
    }

    /// Offer a packet: refused when the queue is closed, handed back when it
    /// is full, appended otherwise.
    pub fn push(&mut self, packet: Packet) -> (r: PushOutcome<Packet>)
        requires
            old(self).wf(),
        ensures
            final(self).wf(),
            final(self).cap() == old(self).cap(),
            final(self).is_shut() == old(self).is_shut(),
            old(self).is_shut() ==> r is Closed && final(self).items() == old(self).items(),
            !old(self).is_shut() && old(self).items().len() >= old(self).cap() ==> r == PushOutcome::<
                Packet,
            >::Full(packet) && final(self).items() == old(self).items(),
            !old(self).is_shut() && old(self).items().len() < old(self).cap() ==> r is Pushed
                && final(self).items() == old(self).items().push(packet),
    {
        if self.closed {
            return PushOutcome::Closed;
        }
        if self.packets.len() >= self.capacity {
            return PushOutcome::Full(packet);
        }
        self.packets.push_back(packet);
        PushOutcome::Pushed
    }

    /// Number of packets in the queue.
    pub fn len(&self) -> (r: usize)
        ensures
            r == self.items().len(),
    {
        self.packets.len()
    }

    /// Close the queue: later packets are refused; queued packets stay.
    pub fn close(&mut self)
        requires
            old(self).wf(),
        ensures
            final(self).wf(),
            final(self).is_shut(),
            final(self).items() == old(self).items(),
            final(self).cap() == old(self).cap(),
    {
        self.closed = true;
    }

    /// Whether the queue was closed.
    pub fn is_closed(&self) -> (r: bool)
        ensures
            r == self.is_shut(),
    {
        self.closed
    }

    /// Empty the queue and open it again.
    pub fn reopen(&mut self)
        requires
            old(self).wf(),
        ensures
            final(self).wf(),
            !final(self).is_shut(),
            final(self).items() == Seq::<Packet>::empty(),
            final(self).cap() == old(self).cap(),
    {
        self.packets.clear();
        self.closed = false;
    }
    /// Take the oldest packet; when there is none, say whether more may come
    /// (the queue is open) or the stream is over (the queue is closed).
    pub fn pop(&mut self) -> (r: PopOutcome<Packet>)
        requires
            old(self).wf(),
        ensures
            final(self).wf(),
            final(self).cap() == old(self).cap(),
            final(self).is_shut() == old(self).is_shut(),
            old(self).items().len() > 0 ==> r == PopOutcome::<Packet>::Item(old(self).items()[0])
                && final(self).items() == old(self).items().drop_first(),
            old(self).items().len() == 0 && old(self).is_shut() ==> r is Finished
                && final(self).items() == old(self).items(),
            old(self).items().len() == 0 && !old(self).is_shut() ==> r is Wait
                && final(self).items() == old(self).items(),
    {
        if self.packets.len() == 0 {
            if self.closed {
                return PopOutcome::Finished;
            } else {
                return PopOutcome::Wait;
            }
        }
        match self.packets.pop_front() {
            Some(p) => {
                proof {
                    assert(self.packets@ =~= old(self).packets@.drop_first());
                }
                PopOutcome::Item(p)
            },
            None => PopOutcome::Finished,
        }
    }

    /// Drop every queued packet; the queue stays open or closed as it was.
    pub fn clear(&mut self)
        requires
            old(self).wf(),
        ensures
            final(self).wf(),
            final(self).is_shut() == old(self).is_shut(),
            final(self).items() == Seq::<Packet>::empty(),
            final(self).cap() == old(self).cap(),
    {
        self.packets.clear();
    }
}

} // verus!
