//! A bounded first-in first-out queue of display frames that can be closed.
//!
//! The queue itself never blocks: a producer that finds it full waits (in
//! the application, on a condition variable) and offers the frame again.
use std::collections::VecDeque;

use vstd::prelude::*;

use crate::frame::VideoFrame;

verus! {

/// What became of a frame offered to a queue.
pub enum PushOutcome<T> {
    /// The frame was appended.
    Pushed,
    /// The queue is full; the frame is handed back to be offered again.
    Full(T),
    /// The queue is closed; the frame was dropped.
    Closed,
}

/// A bounded queue of frames between a decoder and the display.
pub struct FrameQueue {
    frames: VecDeque<VideoFrame>,
    capacity: usize,
    closed: bool,
}

impl FrameQueue {
    /// The frames in the queue, oldest first.
    pub closed spec fn items(&self) -> Seq<VideoFrame> {
        self.frames@
    }

    /// The most frames the queue holds.
    pub closed spec fn cap(&self) -> nat {
        self.capacity as nat
    }

    /// Whether the queue was closed.
    pub closed spec fn is_shut(&self) -> bool {
        self.closed
    }

    /// The queue never holds more frames than its capacity.
    pub open spec fn wf(&self) -> bool {
        self.items().len() <= self.cap()
    }

    /// Create an empty, open queue holding at most `capacity` frames.
    pub fn new(capacity: usize) -> (r: Self)
        ensures
            r.wf(),
            r.items() == Seq::<VideoFrame>::empty(),
            r.cap() == capacity,
            !r.is_shut(),
    {
        FrameQueue { frames: VecDeque::with_capacity(capacity), capacity, closed: false }
    }

    /// Offer a frame: refused when the queue is closed, handed back when it
    /// is full, appended otherwise.
    pub fn push(&mut self, frame: VideoFrame) -> (r: PushOutcome<VideoFrame>)
        requires
            old(self).wf(),
        ensures
            final(self).wf(),
            final(self).cap() == old(self).cap(),
            final(self).is_shut() == old(self).is_shut(),
            old(self).is_shut() ==> r is Closed && final(self).items() == old(self).items(),
            !old(self).is_shut() && old(self).items().len() >= old(self).cap() ==> r == PushOutcome::<
                VideoFrame,
            >::Full(frame) && final(self).items() == old(self).items(),
            !old(self).is_shut() && old(self).items().len() < old(self).cap() ==> r is Pushed
                && final(self).items() == old(self).items().push(frame),
    {
        if self.closed {
            return PushOutcome::Closed;
        }
        if self.frames.len() >= self.capacity {
            return PushOutcome::Full(frame);
        }
        self.frames.push_back(frame);
        PushOutcome::Pushed
    }

    /// Take the oldest frame, if any.
    pub fn try_pop(&mut self) -> (r: Option<VideoFrame>)
        requires
            old(self).wf(),
        ensures
            final(self).wf(),
            final(self).cap() == old(self).cap(),
            final(self).is_shut() == old(self).is_shut(),
            old(self).items().len() == 0 ==> r is None && final(self).items() == old(self).items(),
            old(self).items().len() > 0 ==> r == Some(old(self).items()[0]) && final(self).items()
                == old(self).items().drop_first(),
    {
        let r = self.frames.pop_front();
        proof {
            if r is Some {
                assert(self.frames@ =~= old(self).frames@.drop_first());
            }
        }
        r
    }

    /// Number of frames in the queue.
    pub fn len(&self) -> (r: usize)
        ensures
            r == self.items().len(),
    {
        self.frames.len()
    }

    /// Whether the queue holds no frame.
    pub fn is_empty(&self) -> (r: bool)
        ensures
            r == (self.items().len() == 0),
    {
        self.frames.len() == 0
    }

    /// Close the queue: later frames are refused; queued frames stay.
    pub fn close(&mut self)
        requires
            old(self).wf(),
        ensures
            final(self).wf(),
            final(self).is_shut(),
            final(self).items() == old(self).items(),
            final(self).cap() == old(self).cap(),
    {
        self.closed = true;
    }

    /// Whether the queue was closed.
    pub fn is_closed(&self) -> (r: bool)
        ensures
            r == self.is_shut(),
    {
        self.closed
    }

    /// Empty the queue and open it again.
    pub fn reopen(&mut self)
        requires
            old(self).wf(),
        ensures
            final(self).wf(),
            !final(self).is_shut(),
            final(self).items() == Seq::<VideoFrame>::empty(),
            final(self).cap() == old(self).cap(),
    {
        self.frames.clear();
        self.closed = false;
    }
}

/// First in, first out: appending a frame (what `push` does to `items`)
/// never changes which frame removing the oldest (what `try_pop` does)
/// hands out next, unless the queue was empty, and then it is the frame
/// just appended.
pub proof fn lemma_fifo(items: Seq<VideoFrame>, frame: VideoFrame)
    ensures
        items.len() > 0 ==> items.push(frame)[0] == items[0] && items.push(frame).drop_first()
            == items.drop_first().push(frame),
        items.len() == 0 ==> items.push(frame)[0] == frame && items.push(frame).drop_first()
            == items,
{
    if items.len() > 0 {
        assert(items.push(frame).drop_first() =~= items.drop_first().push(frame));
    } else {
        assert(items.push(frame).drop_first() =~= items);
    }
}

} // verus!
