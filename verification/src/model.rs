//! The pipeline as a mathematical state machine.
//!
//! A step takes the pipeline, and where it concerns the queue also the
//! queue, to what they are afterwards and to what the caller is told.

use crate::capture::Frame;
use crate::driver::{Request, Response, Step, Survey};
use crate::error::{ApiFailure, Error};
use crate::geometry::{ClipRegion, ContentSize};
use crate::queue::{FrameId, Polled, QueueModel};
use crate::texture::{CaptureSession, FramePool, PixelFormat, StagingTexture};
use vstd::prelude::*;

verus! {

/// The three states a pipeline passes through, in this order.
#[derive(Clone, Copy, Debug, PartialEq, Eq, Structural)]
pub enum Lifecycle {
    Constructed,
    Started,
    Stopped,
}

/// The request that waits for its answer, with what the pipeline has to
/// remember until the answer comes.
#[derive(Clone, Copy, Debug, PartialEq, Eq, Structural)]
pub enum Phase {
    /// No request waits.
    Idle,
    Starting,
    /// `grabbing` tells a stop that a grab began from one that was called
    /// for.
    ClosingSession { grabbing: bool },
    ClosingFramePool { grabbing: bool },
    PollingClosure,
    Inspecting { frame: FrameId },
    Surveying { frame: FrameId, content_size: ContentSize },
    Recreating { frame: FrameId, content_size: ContentSize, format: PixelFormat, pool: FramePool },
    Allocating { frame: FrameId, content_size: ContentSize, texture: StagingTexture },
    Copying { frame: FrameId },
    Mapping { frame: FrameId },
}

impl Phase {
    /// The most answers an operation in this phase can still need before it
    /// has its result, not counting the answers that the source is still
    /// there while nothing waits.
    pub open spec fn rank(self) -> nat {
        match self {
            Phase::Idle => 0,
            Phase::Starting => 1,
            Phase::ClosingFramePool { .. } => 1,
            Phase::ClosingSession { .. } => 2,
            Phase::Mapping { .. } => 1,
            Phase::Copying { .. } => 2,
            Phase::Allocating { .. } => 3,
            Phase::Recreating { .. } => 4,
            Phase::Surveying { .. } => 5,
            Phase::Inspecting { .. } => 6,
            Phase::PollingClosure => 7,
        }
    }
}

/// Everything a pipeline knows, as a mathematical value.
pub struct CaptureModel {
    pub lifecycle: Lifecycle,
    pub phase: Phase,
    pub session: CaptureSession,
    pub frame_pool: FramePool,
    pub clip_region: ClipRegion,
    pub staging: Option<StagingTexture>,
    pub content_size: ContentSize,
}

impl CaptureModel {
    /// The pipeline right after construction.
    pub open spec fn new(
        cursor_capture: bool,
        target_size: ContentSize,
        clip_region: ClipRegion,
    ) -> CaptureModel {
        CaptureModel {
            lifecycle: Lifecycle::Constructed,
            phase: Phase::Idle,
            session: CaptureSession { target_size, cursor_capture },
            frame_pool: FramePool::sized(target_size),
            clip_region,
            staging: None,
            content_size: ContentSize::zero(),
        }
    }

    /// What holds of every pipeline.
    pub open spec fn wf(self) -> bool {
        &&& self.clip_region.ordered()
        &&& self.frame_pool == FramePool::sized(self.frame_pool.size)
        &&& match self.phase {
            Phase::Idle => true,
            Phase::ClosingSession { .. } | Phase::ClosingFramePool { .. } => self.lifecycle
                is Stopped,
            Phase::Recreating { pool, .. } => !(self.lifecycle is Stopped) && pool
                == FramePool::sized(pool.size),
            Phase::Copying { .. } | Phase::Mapping { .. } => !(self.lifecycle is Stopped)
                && self.staging is Some,
            _ => !(self.lifecycle is Stopped),
        }
    }

    /// The request that waits for its answer.
    pub open spec fn pending(self) -> Option<Request> {
        match self.phase {
            Phase::Idle => None,
            Phase::Starting => Some(Request::StartSession),
            Phase::ClosingSession { .. } => Some(Request::CloseSession),
            Phase::ClosingFramePool { .. } => Some(Request::CloseFramePool),
            Phase::PollingClosure => Some(Request::PollClosure),
            Phase::Inspecting { frame } => Some(Request::InspectFrame { frame }),
            Phase::Surveying { frame, .. } => Some(Request::SurveySource { frame }),
            Phase::Recreating { pool, .. } => Some(Request::RecreateFramePool { pool }),
            Phase::Allocating { texture, .. } => Some(Request::AllocateStaging { texture }),
            Phase::Copying { frame } => Some(
                Request::CopyRegion { frame, region: self.clip_region },
            ),
            Phase::Mapping { .. } => Some(Request::MapStaging),
        }
    }

    /// A frame of this content size cannot go into the staging texture as it
    /// is: the size is not the one last seen, or there is no texture yet.
    pub open spec fn needs_resize(self, content_size: ContentSize) -> bool {
        content_size != self.content_size || self.staging is None
    }

    /// Moves to `phase` and issues its request.
    pub open spec fn enter(self, phase: Phase) -> (CaptureModel, Step)
        recommends
            !(phase is Idle),
    {
        let next = CaptureModel { phase, ..self };
        (next, Step::Perform(next.pending().unwrap()))
    }

    /// Ends the operation in progress with `step`.
    pub open spec fn settle(self, step: Step) -> (CaptureModel, Step) {
        (CaptureModel { phase: Phase::Idle, ..self }, step)
    }

    /// Becomes `Stopped`, gives up the read end of the queue and begins to
    /// close the session.
    pub open spec fn halt(self, queue: QueueModel, grabbing: bool) -> (
        CaptureModel,
        QueueModel,
        Step,
    ) {
        let (next, step) = CaptureModel { lifecycle: Lifecycle::Stopped, ..self }.enter(
            Phase::ClosingSession { grabbing },
        );
        (next, queue.without_receiver(), step)
    }

    /// The error under which a failed close is reported: a grab reports
    /// capture errors, a stop session errors.
    pub open spec fn close_error(grabbing: bool, failure: ApiFailure) -> Error {
        if grabbing {
            Error::Capture(failure)
        } else {
            Error::Session(failure)
        }
    }

    /// One non-blocking look at the queue: a frame is taken up, the end of
    /// the stream stops the pipeline, an empty queue sends the driver to the
    /// closure notification.
    pub open spec fn grab_next(self, queue: QueueModel) -> (CaptureModel, QueueModel, Step) {
        let (rest, polled) = queue.take();
        match polled {
            Polled::Item(Some(frame)) => {
                let (next, step) = self.enter(Phase::Inspecting { frame });
                (next, rest, step)
            },
            Polled::Item(None) => self.halt(rest, true),
            Polled::Disconnected => self.halt(rest, true),
            Polled::Empty => {
                let (next, step) = self.enter(Phase::PollingClosure);
                (next, rest, step)
            },
        }
    }

    /// Beginning of `start`.
    pub open spec fn start(self) -> (CaptureModel, Step) {
        if !(self.phase is Idle) {
            (self, Step::Rejected)
        } else if self.lifecycle is Stopped {
            (self, Step::Done)
        } else {
            self.enter(Phase::Starting)
        }
    }

    /// Beginning of `stop`.
    pub open spec fn stop(self, queue: QueueModel) -> (CaptureModel, QueueModel, Step) {
        if !(self.phase is Idle) {
            (self, queue, Step::Rejected)
        } else {
            self.halt(queue, false)
        }
    }

    /// Beginning of `grab`.
    pub open spec fn grab(self, queue: QueueModel) -> (CaptureModel, QueueModel, Step) {
        if !(self.phase is Idle) {
            (self, queue, Step::Rejected)
        } else if self.lifecycle is Stopped {
            (self, queue, Step::NoFrame)
        } else {
            self.grab_next(queue)
        }
    }

    /// The survey of frame and source is in: the clip rectangle is taken
    /// over and the frame pool is to be recreated at the target's size.
    pub open spec fn recreate_frame_pool(
        self,
        frame: FrameId,
        content_size: ContentSize,
        survey: Survey,
    ) -> (CaptureModel, Step) {
        CaptureModel { clip_region: survey.clip_region, ..self }.enter(
            Phase::Recreating {
                frame,
                content_size,
                format: survey.format,
                pool: FramePool::sized(survey.target_size),
            },
        )
    }

    /// The driver answers a request that has nothing to do with the queue.
    pub open spec fn respond(self, response: Response) -> (CaptureModel, Step) {
        match (self.phase, response) {
            (Phase::Starting, Response::Completed) => CaptureModel {
                lifecycle: Lifecycle::Started,
                ..self
            }.settle(Step::Done),
            (Phase::Starting, Response::Failed(failure)) => self.settle(
                Step::Failed(Error::Session(failure)),
            ),
            (Phase::ClosingSession { grabbing }, Response::Completed) => self.enter(
                Phase::ClosingFramePool { grabbing },
            ),
            (Phase::ClosingSession { grabbing }, Response::Failed(failure)) => self.settle(
                Step::Failed(Self::close_error(grabbing, failure)),
            ),
            (Phase::ClosingFramePool { grabbing }, Response::Completed) => self.settle(
                if grabbing {
                    Step::NoFrame
                } else {
                    Step::Done
                },
            ),
            (Phase::ClosingFramePool { grabbing }, Response::Failed(failure)) => self.settle(
                Step::Failed(Self::close_error(grabbing, failure)),
            ),
            (Phase::Inspecting { frame }, Response::Inspected(content_size)) => if self.needs_resize(
                content_size,
            ) {
                self.enter(Phase::Surveying { frame, content_size })
            } else {
                self.enter(Phase::Copying { frame })
            },
            (Phase::Surveying { frame, content_size }, Response::Surveyed(survey)) => self.recreate_frame_pool(
                frame,
                content_size,
                survey,
            ),
            (Phase::Recreating { frame, content_size, format, pool }, Response::Completed) => CaptureModel {
                frame_pool: pool,
                ..self
            }.enter(
                Phase::Allocating {
                    frame,
                    content_size,
                    texture: StagingTexture::covering(self.clip_region, format),
                },
            ),
            (Phase::Allocating { frame, content_size, texture }, Response::Completed) => CaptureModel {
                staging: Some(texture),
                content_size,
                ..self
            }.enter(Phase::Copying { frame }),
            (Phase::Copying { frame }, Response::Completed) => self.enter(
                Phase::Mapping { frame },
            ),
            (Phase::Mapping { frame }, Response::Mapped(ptr)) => self.settle(
                Step::Frame(Frame { frame, texture: self.staging.unwrap(), ptr }),
            ),
            (Phase::Inspecting { .. }, Response::Failed(failure))
            | (Phase::Surveying { .. }, Response::Failed(failure))
            | (Phase::Recreating { .. }, Response::Failed(failure))
            | (Phase::Allocating { .. }, Response::Failed(failure))
            | (Phase::Copying { .. }, Response::Failed(failure))
            | (Phase::Mapping { .. }, Response::Failed(failure)) => self.settle(
                Step::Failed(Error::Capture(failure)),
            ),
            _ => (self, Step::Rejected),
        }
    }

    /// The driver answers the request that waits. Only the answer about the
    /// closure notification concerns the queue: a source that is gone stops
    /// the pipeline, one that is still there has the queue looked at again.
    pub open spec fn advance(self, queue: QueueModel, response: Response) -> (
        CaptureModel,
        QueueModel,
        Step,
    ) {
        match (self.phase, response) {
            (Phase::PollingClosure, Response::Closure(signal)) => if signal.source_gone() {
                self.halt(queue, true)
            } else {
                self.grab_next(queue)
            },
            _ => {
                let (next, step) = self.respond(response);
                (next, queue, step)
            },
        }
    }
}

} // verus!
