//! Bounded single-producer/single-consumer frame queue between capture and
//! encoder. A full queue drops the newest frame and counts it; nothing is
//! ever lost without being counted.

use std::collections::VecDeque;
use vstd::prelude::*;

verus! {

/// Frames buffered between capture and encoder during a recording.
pub const FRAME_CHANNEL_CAPACITY: usize = 120;

/// A FIFO of at most `capacity` items with counters of what went in, what
/// came out and what was dropped.
pub struct FrameQueue<T> {
    items: VecDeque<T>,
    capacity: usize,
    enqueued: u64,
    dequeued: u64,
    dropped: u64,
}

impl<T> FrameQueue<T> {
    /// The items waiting, oldest first.
    pub closed spec fn contents(&self) -> Seq<T> {
        self.items@
    }

    pub closed spec fn spec_capacity(&self) -> nat {
        self.capacity as nat
    }

    /// Every item handed to `try_push`, accepted or not.
    pub closed spec fn spec_enqueued(&self) -> nat {
        self.enqueued as nat
    }

    pub closed spec fn spec_dequeued(&self) -> nat {
        self.dequeued as nat
    }

    pub closed spec fn spec_dropped(&self) -> nat {
        self.dropped as nat
    }

    /// Never over capacity, and every item handed in is either still
    /// waiting, taken out, or dropped.
    pub closed spec fn wf(&self) -> bool {
        &&& self.items@.len() <= self.capacity
        &&& self.enqueued == self.dequeued + self.items@.len() + self.dropped
    }

    /// An empty queue holding at most `capacity` items.
    pub fn new(capacity: usize) -> (r: Self)
        ensures
            r.wf(),
            r.contents() == Seq::<T>::empty(),
            r.spec_capacity() == capacity,
            r.spec_enqueued() == 0,
            r.spec_dequeued() == 0,
            r.spec_dropped() == 0,
    {
        FrameQueue { items: VecDeque::new(), capacity, enqueued: 0, dequeued: 0, dropped: 0 }
    }

    /// Append `item` when there is room; otherwise drop it and count the
    /// drop. Returns whether the item was queued.
    pub fn try_push(&mut self, item: T) -> (r: bool)
        requires
            old(self).wf(),
            old(self).spec_enqueued() < u64::MAX,
        ensures
            final(self).wf(),
            final(self).spec_capacity() == old(self).spec_capacity(),
            final(self).spec_enqueued() == old(self).spec_enqueued() + 1,
            final(self).spec_dequeued() == old(self).spec_dequeued(),
            r == (old(self).contents().len() < old(self).spec_capacity()),
            r ==> final(self).contents() == old(self).contents().push(item),
            r ==> final(self).spec_dropped() == old(self).spec_dropped(),
            !r ==> final(self).contents() == old(self).contents(),
            !r ==> final(self).spec_dropped() == old(self).spec_dropped() + 1,
    {
        self.enqueued = self.enqueued + 1;
        if self.items.len() < self.capacity {
            self.items.push_back(item);
            true
        } else {
            self.dropped = self.dropped + 1;
            false
        }
    }

    /// A captured frame arrives: while the recording `accepting` frames it
    /// goes through `try_push`; otherwise it is ignored and counted nowhere.
    pub fn offer(&mut self, item: T, accepting: bool) -> (r: bool)
        requires
            old(self).wf(),
            old(self).spec_enqueued() < u64::MAX,
        ensures
            final(self).wf(),
            final(self).spec_capacity() == old(self).spec_capacity(),
            final(self).spec_dequeued() == old(self).spec_dequeued(),
            !accepting ==> !r && final(self).contents() == old(self).contents()
                && final(self).spec_enqueued() == old(self).spec_enqueued()
                && final(self).spec_dropped() == old(self).spec_dropped(),
            accepting ==> final(self).spec_enqueued() == old(self).spec_enqueued() + 1,
            accepting ==> r == (old(self).contents().len() < old(self).spec_capacity()),
            accepting && r ==> final(self).contents() == old(self).contents().push(item),
            accepting && r ==> final(self).spec_dropped() == old(self).spec_dropped(),
            accepting && !r ==> final(self).contents() == old(self).contents(),
            accepting && !r ==> final(self).spec_dropped() == old(self).spec_dropped() + 1,
    {
        if accepting {
            self.try_push(item)
        } else {
            false
        }
    }

    /// Take the oldest item, if any.
    pub fn pop(&mut self) -> (r: Option<T>)
        requires
            old(self).wf(),
        ensures
            final(self).wf(),
            final(self).spec_capacity() == old(self).spec_capacity(),
            final(self).spec_enqueued() == old(self).spec_enqueued(),
            final(self).spec_dropped() == old(self).spec_dropped(),
            old(self).contents().len() == 0 ==> r is None,
            old(self).contents().len() == 0 ==> final(self).contents() == old(self).contents(),
            old(self).contents().len() == 0 ==> final(self).spec_dequeued() == old(self).spec_dequeued(),
            old(self).contents().len() > 0 ==> r == Some(old(self).contents()[0]),
            old(self).contents().len() > 0 ==> final(self).contents() == old(self).contents().drop_first(),
            old(self).contents().len() > 0 ==> final(self).spec_dequeued() == old(self).spec_dequeued() + 1,
    {
        let r = self.items.pop_front();
        if r.is_some() {
            self.dequeued = self.dequeued + 1;
        }
        proof {
            if old(self).items@.len() > 0 {
                assert(self.items@ =~= old(self).items@.drop_first());
            }
        }
        r
    }

    pub fn len(&self) -> (r: usize)
        ensures
            r == self.contents().len(),
    {
        self.items.len()
    }

    pub fn capacity(&self) -> (r: usize)
        ensures
            r == self.spec_capacity(),
    {
        self.capacity
    }

    pub fn frames_enqueued(&self) -> (r: u64)
        ensures
            r == self.spec_enqueued(),
    {
        self.enqueued
    }

    pub fn frames_dequeued(&self) -> (r: u64)
        ensures
            r == self.spec_dequeued(),
    {
        self.dequeued
    }

    pub fn dropped_frames(&self) -> (r: u64)
        ensures
            r == self.spec_dropped(),
    {
        self.dropped
    }
}

/// In every well-formed queue, each frame handed in has been taken out,
/// is still waiting, or was dropped; and the queue is never over capacity.
pub proof fn lemma_queue_accounting<T>(q: &FrameQueue<T>)
    requires
        q.wf(),
    ensures
        q.spec_enqueued() == q.spec_dequeued() + q.contents().len() + q.spec_dropped(),
        q.contents().len() <= q.spec_capacity(),
{
}

} // verus!
