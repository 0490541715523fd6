//! Failures of the platform and how the pipeline reports them.

use vstd::prelude::*;

verus! {

/// The status code with which a platform call failed.
#[derive(Clone, Copy, Debug, PartialEq, Eq, Structural)]
pub struct ApiFailure {
    pub code: i32,
}

/// Why a pipeline operation failed.
#[derive(Clone, Copy, Debug, PartialEq, Eq, Structural)]
pub enum Error {
    /// The device, its context or the interop handle could not be created.
    DeviceInit(ApiFailure),
    /// The frame pool or the capture session could not be set up.
    SessionCreate(ApiFailure),
    /// Starting or closing the session failed.
    Session(ApiFailure),
    /// Retrieving, resizing for or copying a frame failed. The pipeline keeps
    /// its lifecycle state and the next grab may succeed.
    Capture(ApiFailure),
}

impl Error {
    /// The platform failure behind this error.
    pub open spec fn spec_failure(&self) -> ApiFailure {
        match *self {
            Error::DeviceInit(failure) => failure,
            Error::SessionCreate(failure) => failure,
            Error::Session(failure) => failure,
            Error::Capture(failure) => failure,
        }
    }

    /// The platform failure behind this error.
    #[verifier::when_used_as_spec(spec_failure)]
    pub fn failure(&self) -> (failure: ApiFailure)
        ensures
            failure == self.failure(),
    {
        match *self {
            Error::DeviceInit(failure) => failure,
            Error::SessionCreate(failure) => failure,
            Error::Session(failure) => failure,
            Error::Capture(failure) => failure,
        }
    }
}

/// The steps of bringing a pipeline up, in the order in which they are taken.
#[derive(Clone, Copy, Debug, PartialEq, Eq, Structural)]
pub enum BootstrapStage {
    Device,
    Context,
    Interop,
    CaptureTarget,
    FramePool,
    Session,
    CursorCapture,
    Subscription,
    ClipRegion,
}

impl BootstrapStage {
    /// Whether the stage belongs to creating the device rather than to
    /// setting up the session on it.
    pub open spec fn spec_concerns_device(&self) -> bool {
        *self is Device || *self is Context || *self is Interop
    }

    /// Whether the stage belongs to creating the device rather than to
    /// setting up the session on it.
    #[verifier::when_used_as_spec(spec_concerns_device)]
    pub fn concerns_device(&self) -> (device: bool)
        ensures
            device == self.concerns_device(),
    {
        match *self {
            BootstrapStage::Device | BootstrapStage::Context | BootstrapStage::Interop => true,
            _ => false,
        }
    }
}

/// The first step of bringing a pipeline up that failed, and how.
#[derive(Clone, Copy, Debug, PartialEq, Eq, Structural)]
pub struct BootstrapFailure {
    pub stage: BootstrapStage,
    pub failure: ApiFailure,
}

impl BootstrapFailure {
    /// The error under which a failed bootstrap is reported.
    pub open spec fn spec_classify(&self) -> Error {
        if self.stage.concerns_device() {
            Error::DeviceInit(self.failure)
        } else {
            Error::SessionCreate(self.failure)
        }
    }

    /// The error under which a failed bootstrap is reported.
    #[verifier::when_used_as_spec(spec_classify)]
    pub fn classify(&self) -> (error: Error)
        ensures
            error == self.classify(),
    {
        if self.stage.concerns_device() {
            Error::DeviceInit(self.failure)
        } else {
            Error::SessionCreate(self.failure)
        }
    }
}

} // verus!
