//! The capture pipeline.

use crate::driver::{Bootstrap, Request, Response, Step, Survey};
use crate::error::{ApiFailure, BootstrapFailure, Error};
use crate::geometry::{ClipRegion, ContentSize};
use crate::model::{CaptureModel, Lifecycle, Phase};
use crate::queue::{FrameId, PendingFrameQueue, Polled};
use crate::texture::{CaptureSession, FramePool, MappedSubresource, StagingTexture};
use vstd::prelude::*;

verus! {

/// A captured frame: the staging texture that holds its pixels and where
/// that texture is mapped.
#[derive(Clone, Copy, Debug, PartialEq, Eq, Structural)]
pub struct Frame {
    /// The composited frame whose pixels these are.
    pub frame: FrameId,
    pub texture: StagingTexture,
    pub ptr: MappedSubresource,
}

/// A capture pipeline over a source of type `S`.
///
/// The pipeline decides; it does not act. `start`, `grab` and `stop` begin
/// an operation and `advance` continues it. Each returns a [`Step`]: either
/// the operation's result, or a request that the driver carries out on the
/// platform and answers through `advance`.
///
/// The frames come through a [`PendingFrameQueue`], which the pipeline
/// shares with the producer and is therefore handed for each step that may
/// look into it.
pub struct Capture<S> {
    capturable: S,
    session: CaptureSession,
    frame_pool: FramePool,
    capture_box: ClipRegion,
    staging_texture: Option<StagingTexture>,
    content_size: ContentSize,
    lifecycle: Lifecycle,
    phase: Phase,
}

impl<S> View for Capture<S> {
    type V = CaptureModel;

    closed spec fn view(&self) -> CaptureModel {
        CaptureModel {
            lifecycle: self.lifecycle,
            phase: self.phase,
            session: self.session,
            frame_pool: self.frame_pool,
            clip_region: self.capture_box,
            staging: self.staging_texture,
            content_size: self.content_size,
        }
    }
}

impl<S> Capture<S> {
    #[verifier::type_invariant]
    closed spec fn well_formed(&self) -> bool {
        self@.wf()
    }

    /// The source this pipeline was built over.
    pub closed spec fn source(&self) -> S {
        self.capturable
    }

    /// Assembles a pipeline from what the driver established on the
    /// platform, or reports why the driver could not establish it.
    ///
    /// The pipeline is not started. A failure while the device, its context
    /// or the interop handle was created is a device error; any later
    /// failure is a session error.
    pub fn new(
        capturable: S,
        capture_cursor: bool,
        bootstrap: Result<Bootstrap, BootstrapFailure>,
    ) -> (created: Result<Capture<S>, Error>)
        ensures
            (match bootstrap {
                Ok(ready) => {
                    &&& created matches Ok(capture)
                    &&& capture@ == CaptureModel::new(
                        capture_cursor,
                        ready.target_size,
                        ready.clip_region,
                    )
                    &&& capture@.wf()
                    &&& capture.source() == capturable
                },
                Err(failure) => created matches Err(error) && error == failure.classify(),
            }),
    {
        match bootstrap {
            Ok(ready) => {
                let capture_box = ready.clip_region;
                proof {
                    use_type_invariant(&capture_box);
                }
                Ok(
                    Capture {
                        capturable,
                        session: CaptureSession {
                            target_size: ready.target_size,
                            cursor_capture: capture_cursor,
                        },
                        frame_pool: FramePool::sized(ready.target_size),
                        capture_box,
                        staging_texture: None,
                        content_size: ContentSize::zero(),
                        lifecycle: Lifecycle::Constructed,
                        phase: Phase::Idle,
                    },
                )
            },
            Err(failure) => Err(failure.classify()),
        }
    }

    /// The source this pipeline was built over.
    pub fn capturable(&self) -> (capturable: &S)
        ensures
            *capturable == self.source(),
    {
        &self.capturable
    }

    /// The request that waits for its answer, if one does.
    pub fn pending(&self) -> (request: Option<Request>)
        ensures
            request == self@.pending(),
            self@.wf(),
    {
        proof {
            use_type_invariant(self);
        }
        match self.phase {
            Phase::Idle => None,
            Phase::Starting => Some(Request::StartSession),
            Phase::ClosingSession { .. } => Some(Request::CloseSession),
            Phase::ClosingFramePool { .. } => Some(Request::CloseFramePool),
            Phase::PollingClosure => Some(Request::PollClosure),
            Phase::Inspecting { frame } => Some(Request::InspectFrame { frame }),
            Phase::Surveying { frame, .. } => Some(Request::SurveySource { frame }),
            Phase::Recreating { pool, .. } => Some(Request::RecreateFramePool { pool }),
            Phase::Allocating { texture, .. } => Some(Request::AllocateStaging { texture }),
            Phase::Copying { frame } => Some(
                Request::CopyRegion { frame, region: self.capture_box },
            ),
            Phase::Mapping { .. } => Some(Request::MapStaging),
        }
    }

    /// Moves to `phase` and issues its request.
    fn enter(&mut self, phase: Phase) -> (step: Step)
        requires
            !(phase is Idle),
            old(self)@.enter(phase).0.wf(),
        ensures
            (final(self)@, step) == old(self)@.enter(phase),
            final(self).source() == old(self).source(),
    {
        self.phase = phase;
        Step::Perform(self.pending().unwrap())
    }

    /// Ends the operation in progress with `step`.
    fn settle(&mut self, step: Step) -> (settled: Step)
        ensures
            (final(self)@, settled) == old(self)@.settle(step),
            final(self).source() == old(self).source(),
    {
        proof {
            use_type_invariant(&*self);
        }
        self.phase = Phase::Idle;
        step
    }

    /// Becomes `Stopped`, gives up the read end of the queue and begins to
    /// close the session.
    fn halt(&mut self, frames: &mut PendingFrameQueue, grabbing: bool) -> (step: Step)
        ensures
            (final(self)@, final(frames)@, step) == old(self)@.halt(old(frames)@, grabbing),
            old(frames)@.wf() ==> final(frames)@.wf(),
            final(self).source() == old(self).source(),
    {
        proof {
            use_type_invariant(&*self);
        }
        self.phase = Phase::Idle;
        self.lifecycle = Lifecycle::Stopped;
        frames.drop_receiver();
        self.enter(Phase::ClosingSession { grabbing })
    }

    /// Begins to start the capture.
    ///
    /// Asks the driver to turn delivery on. On a stopped pipeline this does
    /// nothing: a stopped pipeline is not started again.
    pub fn start(&mut self) -> (step: Step)
        ensures
            (final(self)@, step) == old(self)@.start(),
            final(self)@.wf(),
            final(self).source() == old(self).source(),
    {
        proof {
            use_type_invariant(&*self);
        }
        match self.phase {
            Phase::Idle => {
                match self.lifecycle {
                    Lifecycle::Stopped => Step::Done,
                    _ => self.enter(Phase::Starting),
                }
            },
            _ => Step::Rejected,
        }
    }

    /// Begins to stop the capture.
    ///
    /// The pipeline is `Stopped` from this call on, whatever becomes of
    /// closing the session and the frame pool, which the driver is asked to
    /// do next. The read end of the queue is given up, and with it the
    /// frames that wait.
    pub fn stop(&mut self, frames: &mut PendingFrameQueue) -> (step: Step)
        ensures
            (final(self)@, final(frames)@, step) == old(self)@.stop(old(frames)@),
            final(self)@.wf(),
            old(frames)@.wf() ==> final(frames)@.wf(),
            final(self).source() == old(self).source(),
    {
        proof {
            use_type_invariant(&*self);
        }
        match self.phase {
            Phase::Idle => self.halt(frames, false),
            _ => Step::Rejected,
        }
    }

    /// Begins to grab the next frame.
    ///
    /// On a stopped pipeline the answer is `NoFrame` at once. Otherwise the
    /// oldest waiting frame is taken up; while none waits, the driver is
    /// sent to the closure notification and the queue is looked at again
    /// after each answer that the source is still there.
    pub fn grab(&mut self, frames: &mut PendingFrameQueue) -> (step: Step)
        ensures
            (final(self)@, final(frames)@, step) == old(self)@.grab(old(frames)@),
            final(self)@.wf(),
            old(frames)@.wf() ==> final(frames)@.wf(),
            final(self).source() == old(self).source(),
    {
        proof {
            use_type_invariant(&*self);
        }
        match self.phase {
            Phase::Idle => {
                match self.lifecycle {
                    Lifecycle::Stopped => Step::NoFrame,
                    _ => self.grab_next(frames),
                }
            },
            _ => Step::Rejected,
        }
    }

    /// Looks at the queue once, without blocking, and takes up what it
    /// finds.
    fn grab_next(&mut self, frames: &mut PendingFrameQueue) -> (step: Step)
        requires
            !(old(self)@.lifecycle is Stopped),
            old(self)@.phase is Idle || old(self)@.phase is PollingClosure,
        ensures
            (final(self)@, final(frames)@, step) == old(self)@.grab_next(old(frames)@),
            final(self)@.wf(),
            old(frames)@.wf() ==> final(frames)@.wf(),
            final(self).source() == old(self).source(),
    {
        proof {
            use_type_invariant(&*self);
        }
        match frames.try_recv() {
            Polled::Item(Some(frame)) => self.enter(Phase::Inspecting { frame }),
            Polled::Item(None) => self.halt(frames, true),
            Polled::Disconnected => self.halt(frames, true),
            Polled::Empty => self.enter(Phase::PollingClosure),
        }
    }

    /// Takes over the clip rectangle that the survey found and begins to
    /// recreate the frame pool at the size of the capture target.
    fn recreate_frame_pool(
        &mut self,
        frame: FrameId,
        content_size: ContentSize,
        survey: Survey,
    ) -> (step: Step)
        requires
            old(self)@.phase is Surveying,
        ensures
            (final(self)@, step) == old(self)@.recreate_frame_pool(frame, content_size, survey),
            final(self)@.wf(),
            final(self).source() == old(self).source(),
    {
        let capture_box = survey.clip_region;
        proof {
            use_type_invariant(&*self);
            use_type_invariant(&capture_box);
        }
        self.capture_box = capture_box;
        self.enter(
            Phase::Recreating {
                frame,
                content_size,
                format: survey.format,
                pool: FramePool::sized(survey.target_size),
            },
        )
    }

    /// Continues the operation in progress with the driver's answer to the
    /// request that waits.
    pub fn advance(&mut self, frames: &mut PendingFrameQueue, response: Response) -> (step: Step)
        ensures
            (final(self)@, final(frames)@, step) == old(self)@.advance(old(frames)@, response),
            final(self)@.wf(),
            old(frames)@.wf() ==> final(frames)@.wf(),
            final(self).source() == old(self).source(),
    {
        proof {
            use_type_invariant(&*self);
        }
        let phase = self.phase;
        match phase {
            Phase::Idle => Step::Rejected,
            Phase::Starting => match response {
                Response::Completed => {
                    self.lifecycle = Lifecycle::Started;
                    self.settle(Step::Done)
                },
                Response::Failed(failure) => self.settle(Step::Failed(Error::Session(failure))),
                _ => Step::Rejected,
            },
            Phase::ClosingSession { grabbing } => match response {
                Response::Completed => self.enter(Phase::ClosingFramePool { grabbing }),
                Response::Failed(failure) => self.settle(
                    Step::Failed(close_error(grabbing, failure)),
                ),
                _ => Step::Rejected,
            },
            Phase::ClosingFramePool { grabbing } => match response {
                Response::Completed => self.settle(
                    if grabbing {
                        Step::NoFrame
                    } else {
                        Step::Done
                    },
                ),
                Response::Failed(failure) => self.settle(
                    Step::Failed(close_error(grabbing, failure)),
                ),
                _ => Step::Rejected,
            },
            Phase::PollingClosure => match response {
                Response::Closure(signal) => {
                    if signal.source_gone() {
                        self.halt(frames, true)
                    } else {
                        self.grab_next(frames)
                    }
                },
                _ => Step::Rejected,
            },
            Phase::Inspecting { frame } => match response {
                Response::Inspected(content_size) => {
                    if self.content_size.differs_from(&content_size)
                        || self.staging_texture.is_none() {
                        self.enter(Phase::Surveying { frame, content_size })
                    } else {
                        self.enter(Phase::Copying { frame })
                    }
                },
                Response::Failed(failure) => self.settle(Step::Failed(Error::Capture(failure))),
                _ => Step::Rejected,
            },
            Phase::Surveying { frame, content_size } => match response {
                Response::Surveyed(survey) => self.recreate_frame_pool(
                    frame,
                    content_size,
                    survey,
                ),
                Response::Failed(failure) => self.settle(Step::Failed(Error::Capture(failure))),
                _ => Step::Rejected,
            },
            Phase::Recreating { frame, content_size, format, pool } => match response {
                Response::Completed => {
                    self.frame_pool = pool;
                    let texture = StagingTexture::covering(self.capture_box, format);
                    self.enter(Phase::Allocating { frame, content_size, texture })
                },
                Response::Failed(failure) => self.settle(Step::Failed(Error::Capture(failure))),
                _ => Step::Rejected,
            },
            Phase::Allocating { frame, content_size, texture } => match response {
                Response::Completed => {
                    self.staging_texture = Some(texture);
                    self.content_size = content_size;
                    self.enter(Phase::Copying { frame })
                },
                Response::Failed(failure) => self.settle(Step::Failed(Error::Capture(failure))),
                _ => Step::Rejected,
            },
            Phase::Copying { frame } => match response {
                Response::Completed => self.enter(Phase::Mapping { frame }),
                Response::Failed(failure) => self.settle(Step::Failed(Error::Capture(failure))),
                _ => Step::Rejected,
            },
            Phase::Mapping { frame } => match response {
                Response::Mapped(ptr) => {
                    let texture = self.staging_texture.unwrap();
                    self.settle(Step::Frame(Frame { frame, texture, ptr }))
                },
                Response::Failed(failure) => self.settle(Step::Failed(Error::Capture(failure))),
                _ => Step::Rejected,
            },
        }
    }

    /// Where the pipeline stands between `Constructed` and `Stopped`.
    pub fn lifecycle(&self) -> (lifecycle: Lifecycle)
        ensures
            lifecycle == self@.lifecycle,
    {
        self.lifecycle
    }

    /// Whether the pipeline has stopped for good.
    pub fn is_stopped(&self) -> (stopped: bool)
        ensures
            stopped == (self@.lifecycle is Stopped),
    {
        match self.lifecycle {
            Lifecycle::Stopped => true,
            _ => false,
        }
    }

    /// The session as it was created.
    pub fn session(&self) -> (session: CaptureSession)
        ensures
            session == self@.session,
    {
        self.session
    }

    /// The frame pool as it was last created.
    pub fn frame_pool(&self) -> (pool: FramePool)
        ensures
            pool == self@.frame_pool,
    {
        self.frame_pool
    }

    /// The clip rectangle as the source last reported it.
    pub fn clip_region(&self) -> (region: ClipRegion)
        ensures
            region == self@.clip_region,
    {
        self.capture_box
    }

    /// The staging texture, once a frame has been grabbed.
    pub fn staging_texture(&self) -> (texture: Option<StagingTexture>)
        ensures
            texture == self@.staging,
    {
        self.staging_texture
    }

    /// The content size of the frame last copied.
    pub fn content_size(&self) -> (size: ContentSize)
        ensures
            size == self@.content_size,
    {
        self.content_size
    }
}

/// The error under which a failed close is reported.
fn close_error(grabbing: bool, failure: ApiFailure) -> (error: Error)
    ensures
        error == CaptureModel::close_error(grabbing, failure),
{
    if grabbing {
        Error::Capture(failure)
    } else {
        Error::Session(failure)
    }
}

} // verus!
