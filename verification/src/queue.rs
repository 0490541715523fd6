//! The bounded first-in-first-out queue between the frame producer and the
//! pipeline that consumes the frames.

use std::collections::VecDeque;
use vstd::prelude::*;

verus! {

/// How many items may wait between the producer and the pipeline.
pub const QUEUE_CAPACITY: usize = 32;

/// Identifies one composited frame handed over by the compositor.
#[derive(Clone, Copy, Debug, PartialEq, Eq, Structural)]
pub struct FrameId(pub u64);

/// What became of an item offered to the queue.
#[derive(Clone, Copy, Debug, PartialEq, Eq, Structural)]
pub enum Delivery {
    /// The item waits at the back of the queue.
    Queued,
    /// The queue was full: the item was discarded, the queue is unchanged.
    Dropped,
    /// One end of the queue is gone: nothing was stored.
    Disconnected,
}

/// What a non-blocking read of the queue found.
#[derive(Clone, Copy, Debug, PartialEq, Eq, Structural)]
pub enum Polled {
    /// The oldest item: a frame, or `None` for the end-of-stream marker.
    Item(Option<FrameId>),
    /// Nothing waits, but the producer may still deliver.
    Empty,
    /// Nothing waits and nothing will come.
    Disconnected,
}

/// The queue as a mathematical value.
pub struct QueueModel {
    /// Waiting items, oldest first; `None` marks the end of the stream.
    pub items: Seq<Option<FrameId>>,
    pub capacity: nat,
    /// Whether the write end still exists.
    pub sender_attached: bool,
    /// Whether the read end still exists.
    pub receiver_attached: bool,
}

impl QueueModel {
    /// An empty queue with both ends attached.
    pub open spec fn new(capacity: nat) -> QueueModel {
        QueueModel {
            items: Seq::empty(),
            capacity,
            sender_attached: true,
            receiver_attached: true,
        }
    }

    /// No more waits than the queue holds.
    pub open spec fn wf(self) -> bool {
        self.items.len() <= self.capacity
    }

    /// Both ends are attached.
    pub open spec fn connected(self) -> bool {
        self.sender_attached && self.receiver_attached
    }

    /// Offering an item stores it at the back unless an end is gone or the
    /// queue is full; a full queue keeps what it holds and discards the
    /// newcomer.
    pub open spec fn offer(self, item: Option<FrameId>) -> (QueueModel, Delivery) {
        if !self.receiver_attached || !self.sender_attached {
            (self, Delivery::Disconnected)
        } else if self.items.len() >= self.capacity {
            (self, Delivery::Dropped)
        } else {
            (QueueModel { items: self.items.push(item), ..self }, Delivery::Queued)
        }
    }

    /// Taking removes the oldest item. Items that were stored before the
    /// write end went away are still handed out.
    pub open spec fn take(self) -> (QueueModel, Polled) {
        if !self.receiver_attached {
            (self, Polled::Disconnected)
        } else if self.items.len() > 0 {
            (QueueModel { items: self.items.drop_first(), ..self }, Polled::Item(self.items[0]))
        } else if !self.sender_attached {
            (self, Polled::Disconnected)
        } else {
            (self, Polled::Empty)
        }
    }

    /// The write end goes away; what is stored stays.
    pub open spec fn without_sender(self) -> QueueModel {
        QueueModel { sender_attached: false, ..self }
    }

    /// The read end goes away and what was stored is discarded with it.
    pub open spec fn without_receiver(self) -> QueueModel {
        QueueModel { receiver_attached: false, items: Seq::empty(), ..self }
    }

    /// How many more items fit.
    pub open spec fn room(self) -> nat {
        if self.items.len() <= self.capacity {
            (self.capacity - self.items.len()) as nat
        } else {
            0
        }
    }

    /// How many of `offered` items find room.
    pub open spec fn kept(self, offered: nat) -> nat {
        if offered <= self.room() {
            offered
        } else {
            self.room()
        }
    }

    /// The queue after each item of `items` was offered in turn.
    pub open spec fn offer_all(self, items: Seq<Option<FrameId>>) -> QueueModel
        decreases items.len(),
    {
        if items.len() == 0 {
            self
        } else {
            self.offer_all(items.drop_last()).offer(items.last()).0
        }
    }

    /// What the offer of `items[i]` reported, when `items` are offered in turn.
    pub open spec fn delivery_of(self, items: Seq<Option<FrameId>>, i: int) -> Delivery
        recommends
            0 <= i < items.len(),
    {
        self.offer_all(items.take(i)).offer(items[i]).1
    }
}

impl QueueModel {
    /// Of a run of items offered to a connected queue, those that find room
    /// are stored behind what waits already, in the order offered. What
    /// comes after the queue is full leaves no trace.
    pub proof fn lemma_offer_all(self, items: Seq<Option<FrameId>>)
        requires
            self.sender_attached,
            self.receiver_attached,
        ensures
            self.offer_all(items) == (QueueModel {
                items: self.items + items.take(self.kept(items.len()) as int),
                ..self
            }),
        decreases items.len(),
    {
        let kept = self.kept(items.len()) as int;
        if items.len() == 0 {
            assert(self.items + items.take(kept) =~= self.items);
        } else {
            let earlier = items.drop_last();
            let kept_earlier = self.kept(earlier.len()) as int;
            self.lemma_offer_all(earlier);
            let before = self.offer_all(earlier);
            assert(before.items.len() == self.items.len() + kept_earlier);
            if before.items.len() >= self.capacity {
                assert(kept == kept_earlier);
                assert(items.take(kept) =~= earlier.take(kept_earlier));
            } else {
                assert(kept_earlier == earlier.len());
                assert(kept == items.len());
                assert(earlier.take(kept_earlier) =~= earlier);
                assert(items.take(kept) =~= items);
                assert((self.items + earlier).push(items.last()) =~= self.items + items);
            }
        }
    }

    /// Of a run of items offered to a connected queue, exactly those are
    /// dropped that come after the room is used up.
    pub proof fn lemma_deliveries(self, items: Seq<Option<FrameId>>, i: int)
        requires
            self.sender_attached,
            self.receiver_attached,
            0 <= i < items.len(),
        ensures
            self.delivery_of(items, i) == (if i < self.room() {
                Delivery::Queued
            } else {
                Delivery::Dropped
            }),
    {
        self.lemma_offer_all(items.take(i));
    }
}

/// A bounded queue of frames in flight.
pub struct PendingFrameQueue {
    items: VecDeque<Option<FrameId>>,
    capacity: usize,
    sender_attached: bool,
    receiver_attached: bool,
}

impl View for PendingFrameQueue {
    type V = QueueModel;

    closed spec fn view(&self) -> QueueModel {
        QueueModel {
            items: self.items@,
            capacity: self.capacity as nat,
            sender_attached: self.sender_attached,
            receiver_attached: self.receiver_attached,
        }
    }
}

impl PendingFrameQueue {
    /// An empty queue of the capacity that a pipeline works with.
    pub fn new() -> (queue: PendingFrameQueue)
        ensures
            queue@ == QueueModel::new(QUEUE_CAPACITY as nat),
            queue@.wf(),
    {
        Self::with_capacity(QUEUE_CAPACITY)
    }

    /// An empty queue that holds at most `capacity` items.
    pub fn with_capacity(capacity: usize) -> (queue: PendingFrameQueue)
        ensures
            queue@ == QueueModel::new(capacity as nat),
            queue@.wf(),
    {
        PendingFrameQueue {
            items: VecDeque::new(),
            capacity,
            sender_attached: true,
            receiver_attached: true,
        }
    }

    /// Offers an item without blocking.
    pub fn try_send(&mut self, item: Option<FrameId>) -> (delivery: Delivery)
        ensures
            (final(self)@, delivery) == old(self)@.offer(item),
            old(self)@.wf() ==> final(self)@.wf(),
    {
        if !self.receiver_attached || !self.sender_attached {
            Delivery::Disconnected
        } else if self.items.len() >= self.capacity {
            Delivery::Dropped
        } else {
            self.items.push_back(item);
            Delivery::Queued
        }
    }

    /// Reads the oldest item without blocking.
    pub fn try_recv(&mut self) -> (polled: Polled)
        ensures
            (final(self)@, polled) == old(self)@.take(),
            old(self)@.wf() ==> final(self)@.wf(),
    {
        if !self.receiver_attached {
            return Polled::Disconnected;
        }
        match self.items.pop_front() {
            Some(item) => Polled::Item(item),
            None => {
                if self.sender_attached {
                    Polled::Empty
                } else {
                    Polled::Disconnected
                }
            },
        }
    }

    /// Discards the write end. Items already stored can still be read.
    pub fn drop_sender(&mut self)
        ensures
            final(self)@ == old(self)@.without_sender(),
            old(self)@.wf() ==> final(self)@.wf(),
    {
        self.sender_attached = false;
    }

    /// Discards the read end together with everything stored.
    pub fn drop_receiver(&mut self)
        ensures
            final(self)@ == old(self)@.without_receiver(),
            final(self)@.wf(),
    {
        self.items.clear();
        self.receiver_attached = false;
    }

    /// Number of items waiting.
    pub fn len(&self) -> (n: usize)
        ensures
            n == self@.items.len(),
    {
        self.items.len()
    }

    /// Whether nothing waits.
    pub fn is_empty(&self) -> (empty: bool)
        ensures
            empty == (self@.items.len() == 0),
    {
        self.items.len() == 0
    }

    /// The most items the queue holds at once.
    pub fn capacity(&self) -> (capacity: usize)
        ensures
            capacity == self@.capacity,
    {
        self.capacity
    }
}

} // verus!
