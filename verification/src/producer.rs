//! The frame producer: what the compositor's notification does with a
//! frame that is ready.

use crate::error::{ApiFailure, Error};
use crate::queue::{Delivery, FrameId, PendingFrameQueue, QueueModel};
use vstd::prelude::*;

verus! {

impl QueueModel {
    /// The producer hands over a frame.
    pub open spec fn frame_arrived(self, frame: FrameId) -> (QueueModel, Delivery) {
        self.offer(Some(frame))
    }

    /// The queue after the producer handed over `frames`, one by one, while
    /// nothing was taken.
    pub open spec fn arrivals(self, frames: Seq<FrameId>) -> QueueModel
        decreases frames.len(),
    {
        if frames.len() == 0 {
            self
        } else {
            self.arrivals(frames.drop_last()).frame_arrived(frames.last()).0
        }
    }

    /// What the producer was told about `frames[i]`.
    pub open spec fn arrival(self, frames: Seq<FrameId>, i: int) -> Delivery
        recommends
            0 <= i < frames.len(),
    {
        self.arrivals(frames.take(i)).frame_arrived(frames[i]).1
    }
}

impl PendingFrameQueue {
    /// The compositor has a frame ready, or failed to hand one over.
    ///
    /// A frame joins the back of the queue if there is room; if there is
    /// none it is dropped and the frames that wait stay as they are. Once
    /// the pipeline has given up the read end, frames are turned away. A
    /// failure of the compositor is passed on and leaves the queue alone.
    pub fn frame_arrived(&mut self, surface: Result<FrameId, ApiFailure>) -> (delivered: Result<
        Delivery,
        Error,
    >)
        ensures
            (match surface {
                Ok(frame) => {
                    &&& delivered == Ok::<Delivery, Error>(old(self)@.frame_arrived(frame).1)
                    &&& final(self)@ == old(self)@.frame_arrived(frame).0
                },
                Err(failure) => {
                    &&& delivered == Err::<Delivery, Error>(Error::Capture(failure))
                    &&& final(self)@ == old(self)@
                },
            }),
            old(self)@.wf() ==> final(self)@.wf(),
    {
        match surface {
            Ok(frame) => Ok(self.try_send(Some(frame))),
            Err(failure) => Err(Error::Capture(failure)),
        }
    }

    /// The producer marks the end of the stream: the marker queues up behind
    /// the frames that wait, as a frame would.
    pub fn end_of_stream(&mut self) -> (delivery: Delivery)
        ensures
            (final(self)@, delivery) == old(self)@.offer(None),
            old(self)@.wf() ==> final(self)@.wf(),
    {
        self.try_send(None)
    }
}

} // verus!
