use zbl::capture::{Capture, Frame};
use zbl::driver::{Bootstrap, Request, Response, Signal, Step, Survey};
use zbl::error::{ApiFailure, Error};
use zbl::geometry::{ClipRegion, ContentSize};
use zbl::model::Lifecycle;
use zbl::queue::{Delivery, FrameId, PendingFrameQueue};
use zbl::texture::{FramePool, MappedSubresource, PixelFormat, StagingTexture};

const BGRA: PixelFormat = PixelFormat { code: 87 };
const E_FAIL: ApiFailure = ApiFailure { code: -2147467259 };

fn region(left: u32, top: u32, right: u32, bottom: u32) -> ClipRegion {
    ClipRegion::new(left, top, right, bottom).unwrap()
}

fn size(width: i32, height: i32) -> ContentSize {
    ContentSize { width, height }
}

fn mapping(data: usize) -> MappedSubresource {
    MappedSubresource { data, row_pitch: 400, depth_pitch: 40000 }
}

/// A pipeline together with the queue it shares with the producer.
struct Rig {
    pipeline: Capture<u32>,
    frames: PendingFrameQueue,
}

impl Rig {
    fn start(&mut self) -> Step {
        self.pipeline.start()
    }

    fn grab(&mut self) -> Step {
        self.pipeline.grab(&mut self.frames)
    }

    fn stop(&mut self) -> Step {
        self.pipeline.stop(&mut self.frames)
    }

    fn advance(&mut self, response: Response) -> Step {
        self.pipeline.advance(&mut self.frames, response)
    }

    fn frame_arrived(&mut self, surface: Result<FrameId, ApiFailure>) -> Result<Delivery, Error> {
        self.frames.frame_arrived(surface)
    }

    fn end_of_stream(&mut self) -> Delivery {
        self.frames.end_of_stream()
    }

    fn producer_detached(&mut self) {
        self.frames.drop_sender()
    }

    fn queued(&self) -> usize {
        self.frames.len()
    }

    fn pending(&self) -> Option<Request> {
        self.pipeline.pending()
    }

    fn lifecycle(&self) -> Lifecycle {
        self.pipeline.lifecycle()
    }

    fn is_stopped(&self) -> bool {
        self.pipeline.is_stopped()
    }

    fn clip_region(&self) -> ClipRegion {
        self.pipeline.clip_region()
    }

    fn frame_pool(&self) -> FramePool {
        self.pipeline.frame_pool()
    }

    fn staging_texture(&self) -> Option<StagingTexture> {
        self.pipeline.staging_texture()
    }

    fn content_size(&self) -> ContentSize {
        self.pipeline.content_size()
    }
}

fn constructed() -> Rig {
    let ready = Bootstrap { target_size: size(100, 100), clip_region: region(0, 0, 100, 100) };
    Rig { pipeline: Capture::new(7, false, Ok(ready)).unwrap(), frames: PendingFrameQueue::new() }
}

fn running() -> Rig {
    let mut capture = constructed();
    assert_eq!(capture.start(), Step::Perform(Request::StartSession));
    assert_eq!(capture.advance(Response::Completed), Step::Done);
    capture
}

/// A started pipeline that has grabbed frame 0 of size 100 x 100.
fn warmed_up() -> Rig {
    let mut capture = running();
    capture.frame_arrived(Ok(FrameId(0))).unwrap();
    capture.grab();
    capture.advance(Response::Inspected(size(100, 100)));
    capture.advance(Response::Surveyed(Survey {
        format: BGRA,
        target_size: size(100, 100),
        clip_region: region(0, 0, 100, 100),
    }));
    capture.advance(Response::Completed);
    capture.advance(Response::Completed);
    capture.advance(Response::Completed);
    assert!(matches!(capture.advance(Response::Mapped(mapping(0x1000))), Step::Frame(_)));
    capture
}

fn stopped() -> Rig {
    let mut capture = running();
    assert_eq!(capture.stop(), Step::Perform(Request::CloseSession));
    assert_eq!(capture.advance(Response::Completed), Step::Perform(Request::CloseFramePool));
    assert_eq!(capture.advance(Response::Completed), Step::Done);
    capture
}

#[test]
fn start_turns_delivery_on() {
    let mut capture = constructed();
    assert_eq!(capture.start(), Step::Perform(Request::StartSession));
    assert_eq!(capture.pending(), Some(Request::StartSession));
    assert_eq!(capture.lifecycle(), Lifecycle::Constructed);
    assert_eq!(capture.advance(Response::Completed), Step::Done);
    assert_eq!(capture.lifecycle(), Lifecycle::Started);
    assert_eq!(capture.pending(), None);
}

#[test]
fn start_twice_stays_started() {
    let mut capture = running();
    assert_eq!(capture.start(), Step::Perform(Request::StartSession));
    assert_eq!(capture.advance(Response::Completed), Step::Done);
    assert_eq!(capture.lifecycle(), Lifecycle::Started);
}

#[test]
fn failed_start_is_a_session_error() {
    let mut capture = constructed();
    capture.start();
    assert_eq!(capture.advance(Response::Failed(E_FAIL)), Step::Failed(Error::Session(E_FAIL)));
    assert_eq!(capture.lifecycle(), Lifecycle::Constructed);
    assert_eq!(capture.pending(), None);
}

#[test]
fn first_frame_allocates_the_staging_texture() {
    let mut capture = running();
    assert_eq!(capture.frame_arrived(Ok(FrameId(11))), Ok(Delivery::Queued));
    assert_eq!(capture.grab(), Step::Perform(Request::InspectFrame { frame: FrameId(11) }));
    assert_eq!(capture.queued(), 0);
    assert_eq!(
        capture.advance(Response::Inspected(size(100, 100))),
        Step::Perform(Request::SurveySource { frame: FrameId(11) })
    );
    let survey =
        Survey { format: BGRA, target_size: size(120, 110), clip_region: region(10, 20, 110, 220) };
    assert_eq!(
        capture.advance(Response::Surveyed(survey)),
        Step::Perform(Request::RecreateFramePool {
            pool: FramePool { format: BGRA, depth: 1, size: size(120, 110) }
        })
    );
    assert_eq!(capture.clip_region(), region(10, 20, 110, 220));
    assert_eq!(capture.frame_pool().size, size(100, 100));
    let texture = StagingTexture { width: 100, height: 200, format: BGRA };
    assert_eq!(
        capture.advance(Response::Completed),
        Step::Perform(Request::AllocateStaging { texture })
    );
    assert_eq!(capture.frame_pool().size, size(120, 110));
    assert_eq!(capture.staging_texture(), None);
    assert_eq!(
        capture.advance(Response::Completed),
        Step::Perform(Request::CopyRegion { frame: FrameId(11), region: region(10, 20, 110, 220) })
    );
    assert_eq!(capture.staging_texture(), Some(texture));
    assert_eq!(capture.content_size(), size(100, 100));
    assert_eq!(capture.advance(Response::Completed), Step::Perform(Request::MapStaging));
    assert_eq!(
        capture.advance(Response::Mapped(mapping(0xbeef))),
        Step::Frame(Frame { frame: FrameId(11), texture, ptr: mapping(0xbeef) })
    );
    assert_eq!(capture.pending(), None);
    assert_eq!(capture.lifecycle(), Lifecycle::Started);
}

#[test]
fn first_frame_of_size_zero_still_allocates() {
    let mut capture = running();
    capture.frame_arrived(Ok(FrameId(1))).unwrap();
    capture.grab();
    assert_eq!(capture.content_size(), size(0, 0));
    assert_eq!(
        capture.advance(Response::Inspected(size(0, 0))),
        Step::Perform(Request::SurveySource { frame: FrameId(1) })
    );
}

#[test]
fn frame_of_known_size_is_copied_without_resize() {
    let mut capture = warmed_up();
    capture.frame_arrived(Ok(FrameId(1))).unwrap();
    assert_eq!(capture.grab(), Step::Perform(Request::InspectFrame { frame: FrameId(1) }));
    assert_eq!(
        capture.advance(Response::Inspected(size(100, 100))),
        Step::Perform(Request::CopyRegion { frame: FrameId(1), region: region(0, 0, 100, 100) })
    );
    assert_eq!(capture.advance(Response::Completed), Step::Perform(Request::MapStaging));
    assert_eq!(
        capture.advance(Response::Mapped(mapping(0x2000))),
        Step::Frame(Frame {
            frame: FrameId(1),
            texture: StagingTexture { width: 100, height: 100, format: BGRA },
            ptr: mapping(0x2000),
        })
    );
}

#[test]
fn change_of_width_alone_calls_for_a_resize() {
    let mut capture = warmed_up();
    capture.frame_arrived(Ok(FrameId(1))).unwrap();
    capture.grab();
    assert_eq!(
        capture.advance(Response::Inspected(size(101, 100))),
        Step::Perform(Request::SurveySource { frame: FrameId(1) })
    );
}

#[test]
fn change_of_height_alone_calls_for_a_resize() {
    let mut capture = warmed_up();
    capture.frame_arrived(Ok(FrameId(1))).unwrap();
    capture.grab();
    assert_eq!(
        capture.advance(Response::Inspected(size(100, 99))),
        Step::Perform(Request::SurveySource { frame: FrameId(1) })
    );
}

#[test]
fn resize_takes_the_format_of_the_frame() {
    let mut capture = warmed_up();
    capture.frame_arrived(Ok(FrameId(1))).unwrap();
    capture.grab();
    capture.advance(Response::Inspected(size(640, 480)));
    let rgba16 = PixelFormat { code: 10 };
    capture.advance(Response::Surveyed(Survey {
        format: rgba16,
        target_size: size(640, 480),
        clip_region: region(8, 31, 648, 511),
    }));
    let texture = StagingTexture { width: 640, height: 480, format: rgba16 };
    assert_eq!(
        capture.advance(Response::Completed),
        Step::Perform(Request::AllocateStaging { texture })
    );
    capture.advance(Response::Completed);
    capture.advance(Response::Completed);
    let step = capture.advance(Response::Mapped(mapping(0x3000)));
    assert_eq!(
        step,
        Step::Frame(Frame { frame: FrameId(1), texture, ptr: mapping(0x3000) })
    );
    assert_eq!(capture.frame_pool(), FramePool { format: BGRA, depth: 1, size: size(640, 480) });
}

#[test]
fn mapping_of_one_frame_is_not_handed_out_with_the_next() {
    let mut capture = warmed_up();
    let mut seen = vec![mapping(0x1000)];
    for n in 1..4u64 {
        capture.frame_arrived(Ok(FrameId(n))).unwrap();
        capture.grab();
        capture.advance(Response::Inspected(size(100, 100)));
        assert_eq!(capture.advance(Response::Completed), Step::Perform(Request::MapStaging));
        let fresh = mapping(0x1000 * (n as usize + 1));
        match capture.advance(Response::Mapped(fresh)) {
            Step::Frame(frame) => {
                assert_eq!(frame.ptr, fresh);
                assert!(!seen.contains(&frame.ptr));
                seen.push(frame.ptr);
            }
            other => panic!("no frame: {:?}", other),
        }
    }
}

#[test]
fn empty_queue_sends_the_driver_to_the_closure_signal() {
    let mut capture = running();
    assert_eq!(capture.grab(), Step::Perform(Request::PollClosure));
    assert_eq!(
        capture.advance(Response::Closure(Signal::Pending)),
        Step::Perform(Request::PollClosure)
    );
    assert_eq!(
        capture.advance(Response::Closure(Signal::Pending)),
        Step::Perform(Request::PollClosure)
    );
    assert_eq!(capture.lifecycle(), Lifecycle::Started);
}

#[test]
fn frame_that_arrives_while_polling_is_taken_up() {
    let mut capture = running();
    assert_eq!(capture.grab(), Step::Perform(Request::PollClosure));
    assert_eq!(capture.frame_arrived(Ok(FrameId(3))), Ok(Delivery::Queued));
    assert_eq!(
        capture.advance(Response::Closure(Signal::Pending)),
        Step::Perform(Request::InspectFrame { frame: FrameId(3) })
    );
}

#[test]
fn fired_closure_stops_the_pipeline() {
    let mut capture = running();
    assert_eq!(capture.grab(), Step::Perform(Request::PollClosure));
    assert_eq!(
        capture.advance(Response::Closure(Signal::Fired)),
        Step::Perform(Request::CloseSession)
    );
    assert!(capture.is_stopped());
    assert_eq!(capture.advance(Response::Completed), Step::Perform(Request::CloseFramePool));
    assert_eq!(capture.advance(Response::Completed), Step::NoFrame);
    assert_eq!(capture.pending(), None);
    for _ in 0..3 {
        assert_eq!(capture.grab(), Step::NoFrame);
        assert_eq!(capture.pending(), None);
        assert!(capture.is_stopped());
    }
}

#[test]
fn disconnected_closure_stops_the_pipeline() {
    let mut capture = running();
    capture.grab();
    assert_eq!(
        capture.advance(Response::Closure(Signal::Disconnected)),
        Step::Perform(Request::CloseSession)
    );
    capture.advance(Response::Completed);
    assert_eq!(capture.advance(Response::Completed), Step::NoFrame);
    assert_eq!(capture.lifecycle(), Lifecycle::Stopped);
}

#[test]
fn closure_is_not_looked_at_while_frames_wait() {
    let mut capture = warmed_up();
    capture.frame_arrived(Ok(FrameId(1))).unwrap();
    capture.frame_arrived(Ok(FrameId(2))).unwrap();
    for n in 1..3u64 {
        assert_eq!(capture.grab(), Step::Perform(Request::InspectFrame { frame: FrameId(n) }));
        capture.advance(Response::Inspected(size(100, 100)));
        capture.advance(Response::Completed);
        assert!(matches!(capture.advance(Response::Mapped(mapping(0x10))), Step::Frame(_)));
    }
    assert_eq!(capture.grab(), Step::Perform(Request::PollClosure));
}

#[test]
fn end_of_stream_marker_stops_the_pipeline() {
    let mut capture = warmed_up();
    capture.frame_arrived(Ok(FrameId(1))).unwrap();
    assert_eq!(capture.end_of_stream(), Delivery::Queued);
    capture.frame_arrived(Ok(FrameId(2))).unwrap();
    assert_eq!(capture.queued(), 3);
    assert_eq!(capture.grab(), Step::Perform(Request::InspectFrame { frame: FrameId(1) }));
    capture.advance(Response::Inspected(size(100, 100)));
    capture.advance(Response::Completed);
    capture.advance(Response::Mapped(mapping(0x10)));
    assert_eq!(capture.grab(), Step::Perform(Request::CloseSession));
    assert!(capture.is_stopped());
    assert_eq!(capture.queued(), 0);
    assert_eq!(capture.advance(Response::Completed), Step::Perform(Request::CloseFramePool));
    assert_eq!(capture.advance(Response::Completed), Step::NoFrame);
    assert_eq!(capture.grab(), Step::NoFrame);
}

#[test]
fn detached_producer_stops_the_pipeline_once_the_queue_is_drained() {
    let mut capture = warmed_up();
    capture.frame_arrived(Ok(FrameId(1))).unwrap();
    capture.producer_detached();
    assert_eq!(capture.frame_arrived(Ok(FrameId(2))), Ok(Delivery::Disconnected));
    assert_eq!(capture.queued(), 1);
    assert_eq!(capture.grab(), Step::Perform(Request::InspectFrame { frame: FrameId(1) }));
    capture.advance(Response::Inspected(size(100, 100)));
    capture.advance(Response::Completed);
    capture.advance(Response::Mapped(mapping(0x10)));
    assert_eq!(capture.grab(), Step::Perform(Request::CloseSession));
    capture.advance(Response::Completed);
    assert_eq!(capture.advance(Response::Completed), Step::NoFrame);
    assert!(capture.is_stopped());
}

#[test]
fn stop_closes_session_then_frame_pool() {
    let mut capture = running();
    assert_eq!(capture.stop(), Step::Perform(Request::CloseSession));
    assert!(capture.is_stopped());
    assert_eq!(capture.advance(Response::Completed), Step::Perform(Request::CloseFramePool));
    assert_eq!(capture.advance(Response::Completed), Step::Done);
    assert_eq!(capture.pending(), None);
}

#[test]
fn failed_session_close_leaves_the_frame_pool_alone() {
    let mut capture = running();
    capture.stop();
    assert_eq!(capture.advance(Response::Failed(E_FAIL)), Step::Failed(Error::Session(E_FAIL)));
    assert_eq!(capture.pending(), None);
    assert!(capture.is_stopped());
}

#[test]
fn failed_frame_pool_close_is_a_session_error() {
    let mut capture = running();
    capture.stop();
    capture.advance(Response::Completed);
    assert_eq!(capture.advance(Response::Failed(E_FAIL)), Step::Failed(Error::Session(E_FAIL)));
    assert!(capture.is_stopped());
}

#[test]
fn failed_close_during_a_grab_is_a_capture_error() {
    let mut capture = running();
    capture.grab();
    capture.advance(Response::Closure(Signal::Fired));
    assert_eq!(capture.advance(Response::Failed(E_FAIL)), Step::Failed(Error::Capture(E_FAIL)));
    assert!(capture.is_stopped());
    assert_eq!(capture.grab(), Step::NoFrame);
}

#[test]
fn start_after_stop_does_not_resume_delivery() {
    let mut capture = stopped();
    assert_eq!(capture.start(), Step::Done);
    assert_eq!(capture.pending(), None);
    assert_eq!(capture.lifecycle(), Lifecycle::Stopped);
    assert_eq!(capture.frame_arrived(Ok(FrameId(1))), Ok(Delivery::Disconnected));
    assert_eq!(capture.end_of_stream(), Delivery::Disconnected);
    assert_eq!(capture.queued(), 0);
    assert_eq!(capture.grab(), Step::NoFrame);
}

#[test]
fn stop_discards_frames_that_wait() {
    let mut capture = running();
    for n in 0..5u64 {
        capture.frame_arrived(Ok(FrameId(n))).unwrap();
    }
    capture.stop();
    assert_eq!(capture.queued(), 0);
    capture.advance(Response::Completed);
    capture.advance(Response::Completed);
    assert_eq!(capture.grab(), Step::NoFrame);
}

#[test]
fn stop_of_a_stopped_pipeline_closes_again() {
    let mut capture = stopped();
    assert_eq!(capture.stop(), Step::Perform(Request::CloseSession));
    assert_eq!(capture.advance(Response::Failed(E_FAIL)), Step::Failed(Error::Session(E_FAIL)));
    assert!(capture.is_stopped());
}

#[test]
fn grab_before_start_polls_like_any_other() {
    let mut capture = constructed();
    assert_eq!(capture.grab(), Step::Perform(Request::PollClosure));
    assert_eq!(capture.lifecycle(), Lifecycle::Constructed);
}

#[test]
fn compositor_failure_is_passed_on_and_queues_nothing() {
    let mut capture = running();
    assert_eq!(capture.frame_arrived(Err(E_FAIL)), Err(Error::Capture(E_FAIL)));
    assert_eq!(capture.queued(), 0);
    assert_eq!(Error::Capture(E_FAIL).failure(), E_FAIL);
}

fn fails_with_capture_error(mut capture: Rig, before: Lifecycle) {
    assert_eq!(capture.advance(Response::Failed(E_FAIL)), Step::Failed(Error::Capture(E_FAIL)));
    assert_eq!(capture.lifecycle(), before);
    assert_eq!(capture.pending(), None);
}

#[test]
fn failure_to_inspect_is_a_capture_error() {
    let mut capture = running();
    capture.frame_arrived(Ok(FrameId(1))).unwrap();
    capture.grab();
    fails_with_capture_error(capture, Lifecycle::Started);
}

#[test]
fn failure_to_survey_is_a_capture_error() {
    let mut capture = running();
    capture.frame_arrived(Ok(FrameId(1))).unwrap();
    capture.grab();
    capture.advance(Response::Inspected(size(50, 50)));
    fails_with_capture_error(capture, Lifecycle::Started);
}

#[test]
fn failure_to_recreate_keeps_the_new_clip_region_and_the_old_texture() {
    let mut capture = warmed_up();
    capture.frame_arrived(Ok(FrameId(1))).unwrap();
    capture.frame_arrived(Ok(FrameId(2))).unwrap();
    capture.grab();
    capture.advance(Response::Inspected(size(50, 50)));
    capture.advance(Response::Surveyed(Survey {
        format: BGRA,
        target_size: size(50, 50),
        clip_region: region(0, 0, 50, 50),
    }));
    assert_eq!(capture.advance(Response::Failed(E_FAIL)), Step::Failed(Error::Capture(E_FAIL)));
    assert_eq!(capture.clip_region(), region(0, 0, 50, 50));
    assert_eq!(
        capture.staging_texture(),
        Some(StagingTexture { width: 100, height: 100, format: BGRA })
    );
    assert_eq!(capture.content_size(), size(100, 100));
    assert_eq!(capture.frame_pool().size, size(100, 100));
    assert_eq!(capture.lifecycle(), Lifecycle::Started);
    // The frame that failed is gone; the next grab takes up the next frame
    // and resizes for it.
    assert_eq!(capture.grab(), Step::Perform(Request::InspectFrame { frame: FrameId(2) }));
    assert_eq!(
        capture.advance(Response::Inspected(size(50, 50))),
        Step::Perform(Request::SurveySource { frame: FrameId(2) })
    );
}

#[test]
fn failure_to_allocate_keeps_the_old_texture() {
    let mut capture = warmed_up();
    capture.frame_arrived(Ok(FrameId(1))).unwrap();
    capture.grab();
    capture.advance(Response::Inspected(size(50, 50)));
    capture.advance(Response::Surveyed(Survey {
        format: BGRA,
        target_size: size(50, 50),
        clip_region: region(0, 0, 50, 50),
    }));
    capture.advance(Response::Completed);
    assert_eq!(capture.advance(Response::Failed(E_FAIL)), Step::Failed(Error::Capture(E_FAIL)));
    assert_eq!(
        capture.staging_texture(),
        Some(StagingTexture { width: 100, height: 100, format: BGRA })
    );
    assert_eq!(capture.content_size(), size(100, 100));
    assert_eq!(capture.frame_pool().size, size(50, 50));
}

#[test]
fn failure_to_copy_is_a_capture_error() {
    let mut capture = warmed_up();
    capture.frame_arrived(Ok(FrameId(1))).unwrap();
    capture.grab();
    capture.advance(Response::Inspected(size(100, 100)));
    fails_with_capture_error(capture, Lifecycle::Started);
}

#[test]
fn failure_to_map_is_a_capture_error() {
    let mut capture = warmed_up();
    capture.frame_arrived(Ok(FrameId(1))).unwrap();
    capture.grab();
    capture.advance(Response::Inspected(size(100, 100)));
    capture.advance(Response::Completed);
    fails_with_capture_error(capture, Lifecycle::Started);
}

#[test]
fn grab_can_be_retried_after_a_capture_error() {
    let mut capture = warmed_up();
    capture.frame_arrived(Ok(FrameId(1))).unwrap();
    capture.frame_arrived(Ok(FrameId(2))).unwrap();
    capture.grab();
    assert_eq!(capture.advance(Response::Failed(E_FAIL)), Step::Failed(Error::Capture(E_FAIL)));
    assert_eq!(capture.grab(), Step::Perform(Request::InspectFrame { frame: FrameId(2) }));
    capture.advance(Response::Inspected(size(100, 100)));
    capture.advance(Response::Completed);
    assert!(matches!(capture.advance(Response::Mapped(mapping(0x10))), Step::Frame(_)));
}

#[test]
fn operations_are_rejected_while_a_request_waits() {
    let mut capture = running();
    capture.frame_arrived(Ok(FrameId(1))).unwrap();
    let request = Request::InspectFrame { frame: FrameId(1) };
    assert_eq!(capture.grab(), Step::Perform(request));
    assert_eq!(capture.grab(), Step::Rejected);
    assert_eq!(capture.start(), Step::Rejected);
    assert_eq!(capture.stop(), Step::Rejected);
    assert_eq!(capture.pending(), Some(request));
    assert_eq!(capture.lifecycle(), Lifecycle::Started);
}

#[test]
fn answers_to_other_requests_are_rejected() {
    let mut capture = running();
    assert_eq!(capture.advance(Response::Completed), Step::Rejected);
    capture.frame_arrived(Ok(FrameId(1))).unwrap();
    let request = Request::InspectFrame { frame: FrameId(1) };
    assert_eq!(capture.grab(), Step::Perform(request));
    assert_eq!(capture.advance(Response::Completed), Step::Rejected);
    assert_eq!(capture.advance(Response::Closure(Signal::Fired)), Step::Rejected);
    assert_eq!(capture.advance(Response::Mapped(mapping(1))), Step::Rejected);
    assert_eq!(capture.pending(), Some(request));
    assert_eq!(
        capture.advance(Response::Inspected(size(1, 1))),
        Step::Perform(Request::SurveySource { frame: FrameId(1) })
    );
    assert_eq!(capture.advance(Response::Inspected(size(1, 1))), Step::Rejected);
}

#[test]
fn polling_the_closure_signal_cannot_fail() {
    let mut capture = running();
    capture.grab();
    assert_eq!(capture.advance(Response::Failed(E_FAIL)), Step::Rejected);
    assert_eq!(capture.pending(), Some(Request::PollClosure));
}

#[test]
fn frames_can_arrive_while_a_grab_is_under_way() {
    let mut capture = warmed_up();
    capture.frame_arrived(Ok(FrameId(1))).unwrap();
    capture.grab();
    assert_eq!(capture.frame_arrived(Ok(FrameId(2))), Ok(Delivery::Queued));
    capture.advance(Response::Inspected(size(100, 100)));
    assert_eq!(capture.frame_arrived(Ok(FrameId(3))), Ok(Delivery::Queued));
    capture.advance(Response::Completed);
    match capture.advance(Response::Mapped(mapping(0x10))) {
        Step::Frame(frame) => assert_eq!(frame.frame, FrameId(1)),
        other => panic!("no frame: {:?}", other),
    }
    assert_eq!(capture.queued(), 2);
    assert_eq!(capture.grab(), Step::Perform(Request::InspectFrame { frame: FrameId(2) }));
}
