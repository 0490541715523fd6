//! The exchange between the pipeline and whoever drives it.
//!
//! The pipeline never touches the platform. It names the next piece of work
//! as a [`Request`]; the driver carries it out and hands the outcome back as
//! a [`Response`].

use crate::capture::Frame;
use crate::error::{ApiFailure, Error};
use crate::geometry::{ClipRegion, ContentSize};
use crate::queue::FrameId;
use crate::texture::{FramePool, MappedSubresource, PixelFormat, StagingTexture};
use vstd::prelude::*;

verus! {

/// State of a source's closure notification at one moment.
#[derive(Clone, Copy, Debug, PartialEq, Eq, Structural)]
pub enum Signal {
    /// The source is still there.
    Pending,
    /// The source announced that it closed.
    Fired,
    /// Nobody is left to announce anything.
    Disconnected,
}

impl Signal {
    /// Whether the source is known to be gone.
    pub open spec fn spec_source_gone(&self) -> bool {
        !(*self is Pending)
    }

    /// Whether the source is known to be gone.
    #[verifier::when_used_as_spec(spec_source_gone)]
    pub fn source_gone(&self) -> (gone: bool)
        ensures
            gone == self.source_gone(),
    {
        match *self {
            Signal::Pending => false,
            _ => true,
        }
    }
}

/// What the driver established while it brought the platform side up.
#[derive(Clone, Copy, Debug, PartialEq, Eq, Structural)]
pub struct Bootstrap {
    /// Size of the capture target the session was created for.
    pub target_size: ContentSize,
    /// Clip rectangle of the source.
    pub clip_region: ClipRegion,
}

/// What the driver reads off a frame and its source before a resize.
#[derive(Clone, Copy, Debug, PartialEq, Eq, Structural)]
pub struct Survey {
    /// Pixel format of the frame's surface.
    pub format: PixelFormat,
    /// Current size of the capture target.
    pub target_size: ContentSize,
    /// Current clip rectangle of the source.
    pub clip_region: ClipRegion,
}

/// Work that the pipeline asks its driver to carry out.
#[derive(Clone, Copy, Debug, PartialEq, Eq, Structural)]
pub enum Request {
    /// Turn delivery on for the session.
    StartSession,
    /// Close the session.
    CloseSession,
    /// Close the frame pool.
    CloseFramePool,
    /// Look at the closure notification, without blocking.
    PollClosure,
    /// Obtain the frame's surface and report its content size.
    InspectFrame { frame: FrameId },
    /// Report the format of the frame's surface, the size of a fresh capture
    /// target and the source's clip rectangle.
    SurveySource { frame: FrameId },
    /// Recreate the frame pool as described.
    RecreateFramePool { pool: FramePool },
    /// Replace the staging texture by a fresh one as described.
    AllocateStaging { texture: StagingTexture },
    /// Copy the region of the frame's surface into the staging texture.
    CopyRegion { frame: FrameId, region: ClipRegion },
    /// Map the staging texture for reading.
    MapStaging,
}

impl Request {
    /// Whether `response` is an answer to this request. Any work but a look
    /// at the closure notification may be answered by a failure.
    pub open spec fn answered_by(self, response: Response) -> bool {
        match self {
            Request::PollClosure => response is Closure,
            Request::InspectFrame { .. } => response is Inspected || response is Failed,
            Request::SurveySource { .. } => response is Surveyed || response is Failed,
            Request::MapStaging => response is Mapped || response is Failed,
            _ => response is Completed || response is Failed,
        }
    }
}

/// Outcome of the work a [`Request`] asked for.
#[derive(Clone, Copy, Debug, PartialEq, Eq, Structural)]
pub enum Response {
    /// The work was done; it has nothing to report.
    Completed,
    /// The closure notification was looked at.
    Closure(Signal),
    /// The frame's surface was obtained; this is its content size.
    Inspected(ContentSize),
    /// Frame and source were surveyed.
    Surveyed(Survey),
    /// The staging texture is mapped.
    Mapped(MappedSubresource),
    /// The platform refused.
    Failed(ApiFailure),
}

/// Where an operation of the pipeline stands.
#[derive(Clone, Copy, Debug, PartialEq, Eq, Structural)]
pub enum Step {
    /// The driver has to carry out the request and answer it.
    Perform(Request),
    /// Starting or stopping has finished.
    Done,
    /// The grab has finished with a frame.
    Frame(Frame),
    /// The grab has finished and there is no frame, nor will there be.
    NoFrame,
    /// The operation has finished with an error.
    Failed(Error),
    /// Nothing happened: an earlier request still waits for its answer, or
    /// the response does not answer the request that waits.
    Rejected,
}

} // verus!
