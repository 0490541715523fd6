//! Verified core of a screen-capture pipeline.
//!
//! A capture pipeline takes the frames that a compositor produces for a
//! window or a display and makes each of them readable by the CPU: it copies
//! the clip region of the frame into a staging texture and maps that texture.
//! Between the compositor's notification and the pipeline stands a bounded
//! queue, so that a consumer that stalls costs frames, not memory.
//!
//! This crate holds what such a pipeline decides, and proofs of what follows
//! from it. It touches no device. The pipeline in [`capture`] is a state
//! machine: an operation returns either its result or a request, which the
//! caller carries out on the platform and answers ([`driver`]). The producer
//! side of the queue is in [`producer`], the queue itself in [`queue`].
//! [`model`] gives the state machine as a mathematical function, which the
//! contracts of the executable functions refer to, and [`laws`] proves of it
//! that frames are delivered in order, that a full queue drops the newest
//! frame, that a stopped pipeline stays stopped, and that a resize follows
//! the clip region of the source.

pub mod capture;
pub mod driver;
pub mod error;
pub mod geometry;
pub mod laws;
pub mod model;
pub mod producer;
pub mod queue;
pub mod texture;
