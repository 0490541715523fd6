//! What holds of every pipeline and its queue, proved of the state machine.
//!
//! The laws speak of whole operations: a grab from its beginning to its
//! result, with the answers a driver gives on the way.

use crate::capture::Frame;
use crate::driver::{Request, Response, Signal, Step, Survey};
use crate::error::{ApiFailure, Error};
use crate::geometry::ContentSize;
use crate::model::{CaptureModel, Phase};
use crate::queue::{Delivery, FrameId, QueueModel};
use crate::texture::{FramePool, MappedSubresource, StagingTexture};
use vstd::prelude::*;

verus! {

/// Frames as they stand in the queue.
pub open spec fn as_items(frames: Seq<FrameId>) -> Seq<Option<FrameId>> {
    Seq::new(frames.len(), |i: int| Some(frames[i]))
}

impl QueueModel {
    /// The queue with other items waiting.
    pub open spec fn with_items(self, items: Seq<Option<FrameId>>) -> QueueModel {
        QueueModel { items, ..self }
    }
}

/// What a platform that does all it is asked answers in the course of one
/// grab.
pub struct Answers {
    /// Content size of the frame.
    pub content_size: ContentSize,
    /// What a survey of frame and source finds. It is asked for only where
    /// the frame calls for a resize.
    pub survey: Survey,
    /// Where the staging texture is mapped.
    pub ptr: MappedSubresource,
}

impl CaptureModel {
    /// Nothing is in progress, the pipeline has not stopped and it holds the
    /// read end of the queue.
    pub open spec fn ready(self, queue: QueueModel) -> bool {
        &&& self.wf()
        &&& queue.wf()
        &&& self.phase is Idle
        &&& !(self.lifecycle is Stopped)
        &&& queue.receiver_attached
    }

    /// The pipeline as a frame of the given content size leaves it: resized
    /// to what the survey found if the frame calls for a resize, and as it
    /// was if not.
    pub open spec fn resized_for(self, content_size: ContentSize, survey: Survey) -> CaptureModel {
        if self.needs_resize(content_size) {
            CaptureModel {
                clip_region: survey.clip_region,
                frame_pool: FramePool::sized(survey.target_size),
                staging: Some(StagingTexture::covering(survey.clip_region, survey.format)),
                content_size,
                ..self
            }
        } else {
            self
        }
    }

    /// A whole grab on a platform that does all it is asked: the frame is
    /// inspected; if it calls for a resize, frame and source are surveyed,
    /// the frame pool is recreated and a staging texture allocated; then the
    /// frame is copied and the texture mapped.
    pub open spec fn grab_answered(self, queue: QueueModel, answers: Answers) -> (
        CaptureModel,
        QueueModel,
        Step,
    ) {
        let (inspecting, queue, _) = self.grab(queue);
        let (inspected, queue, _) = inspecting.advance(
            queue,
            Response::Inspected(answers.content_size),
        );
        let (copying, queue) = if self.needs_resize(answers.content_size) {
            let (recreating, queue, _) = inspected.advance(
                queue,
                Response::Surveyed(answers.survey),
            );
            let (allocating, queue, _) = recreating.advance(queue, Response::Completed);
            let (copying, queue, _) = allocating.advance(queue, Response::Completed);
            (copying, queue)
        } else {
            (inspected, queue)
        };
        let (mapping, queue, _) = copying.advance(queue, Response::Completed);
        mapping.advance(queue, Response::Mapped(answers.ptr))
    }

    /// Pipeline and queue after one whole grab for each element of
    /// `answers`.
    pub open spec fn grabs_answered(self, queue: QueueModel, answers: Seq<Answers>) -> (
        CaptureModel,
        QueueModel,
    )
        decreases answers.len(),
    {
        if answers.len() == 0 {
            (self, queue)
        } else {
            let (before, waiting) = self.grabs_answered(queue, answers.drop_last());
            let (after, rest, _) = before.grab_answered(waiting, answers.last());
            (after, rest)
        }
    }

    /// What grab number `i` returned, counting from zero, when one whole
    /// grab was made for each element of `answers`.
    pub open spec fn grabbed(self, queue: QueueModel, answers: Seq<Answers>, i: int) -> Step
        recommends
            0 <= i < answers.len(),
    {
        let (before, waiting) = self.grabs_answered(queue, answers.take(i));
        before.grab_answered(waiting, answers[i]).2
    }

    /// The rest of an operation that has begun to close the session;
    /// `session` and `pool` are the driver's answers to closing the session
    /// and the frame pool. The frame pool is closed only if the session was.
    pub open spec fn closing_answered(self, queue: QueueModel, session: Response, pool: Response) -> (
        CaptureModel,
        QueueModel,
        Step,
    ) {
        let (closed, queue, step) = self.advance(queue, session);
        if step is Perform {
            closed.advance(queue, pool)
        } else {
            (closed, queue, step)
        }
    }

    /// A whole grab that finds nothing waiting and learns from the closure
    /// notification that the source is gone.
    pub open spec fn grab_closed(
        self,
        queue: QueueModel,
        signal: Signal,
        session: Response,
        pool: Response,
    ) -> (CaptureModel, QueueModel, Step) {
        let (polling, queue, _) = self.grab(queue);
        let (closing, queue, _) = polling.advance(queue, Response::Closure(signal));
        closing.closing_answered(queue, session, pool)
    }

    /// A whole stop.
    pub open spec fn stop_answered(self, queue: QueueModel, session: Response, pool: Response) -> (
        CaptureModel,
        QueueModel,
        Step,
    ) {
        let (closing, queue, _) = self.stop(queue);
        closing.closing_answered(queue, session, pool)
    }
}

/// The clip rectangles that the surveys found are rectangles.
pub open spec fn surveys_in_order(answers: Seq<Answers>) -> bool {
    forall|i: int| 0 <= i < answers.len() ==> (#[trigger] answers[i]).survey.clip_region.ordered()
}

/// Handing frames over is offering them.
pub proof fn lemma_arrivals(queue: QueueModel, frames: Seq<FrameId>)
    ensures
        queue.arrivals(frames) == queue.offer_all(as_items(frames)),
    decreases frames.len(),
{
    if frames.len() > 0 {
        lemma_arrivals(queue, frames.drop_last());
        assert(as_items(frames).drop_last() =~= as_items(frames.drop_last()));
        assert(as_items(frames).last() == Some(frames.last()));
    }
}

/// The producer is told that a frame is queued while there is room, and that
/// it is dropped afterwards.
pub proof fn lemma_arrival(queue: QueueModel, frames: Seq<FrameId>, i: int)
    requires
        queue.connected(),
        0 <= i < frames.len(),
    ensures
        queue.arrival(frames, i) == (if i < queue.room() {
            Delivery::Queued
        } else {
            Delivery::Dropped
        }),
{
    lemma_arrivals(queue, frames.take(i));
    assert(as_items(frames).take(i) =~= as_items(frames.take(i)));
    queue.lemma_deliveries(as_items(frames), i);
}

/// Of the frames handed to an empty, connected queue, those that find room
/// wait in it, in the order in which they came.
pub proof fn lemma_arrivals_kept(queue: QueueModel, frames: Seq<FrameId>)
    requires
        queue.connected(),
        queue.items.len() == 0,
    ensures
        queue.arrivals(frames) == queue.with_items(
            as_items(frames.take(queue.kept(frames.len()) as int)),
        ),
{
    let kept = queue.kept(frames.len()) as int;
    lemma_arrivals(queue, frames);
    queue.lemma_offer_all(as_items(frames));
    assert(queue.items + as_items(frames).take(kept) =~= as_items(frames.take(kept)));
}

/// A whole grab delivers the frame at the head of the queue and removes it
/// from the queue. The frame comes in the staging texture as the grab
/// leaves it, mapped where the driver said in the course of this grab.
pub proof fn lemma_grab_answered(m: CaptureModel, queue: QueueModel, answers: Answers)
    requires
        m.ready(queue),
        queue.items.len() > 0,
        queue.items[0] is Some,
        answers.survey.clip_region.ordered(),
    ensures
        ({
            let after = m.resized_for(answers.content_size, answers.survey);
            let rest = queue.with_items(queue.items.drop_first());
            &&& after.staging is Some
            &&& after.ready(rest)
            &&& m.grab_answered(queue, answers) == (
                after,
                rest,
                Step::Frame(
                    Frame {
                        frame: queue.items[0].unwrap(),
                        texture: after.staging.unwrap(),
                        ptr: answers.ptr,
                    },
                ),
            )
        }),
{
}

/// Whole grabs take the waiting frames off the queue from the front.
pub proof fn lemma_grabs_answered(
    m: CaptureModel,
    queue: QueueModel,
    frames: Seq<FrameId>,
    answers: Seq<Answers>,
)
    requires
        m.ready(queue),
        queue.items == as_items(frames),
        answers.len() <= frames.len(),
        surveys_in_order(answers),
    ensures
        ({
            let (after, rest) = m.grabs_answered(queue, answers);
            &&& rest == queue.with_items(as_items(frames.skip(answers.len() as int)))
            &&& after.ready(rest)
            &&& after.lifecycle == m.lifecycle
            &&& after.session == m.session
        }),
    decreases answers.len(),
{
    if answers.len() == 0 {
        assert(frames.skip(0) =~= frames);
        assert(queue.with_items(queue.items) == queue);
    } else {
        let k = answers.len() - 1;
        assert(surveys_in_order(answers.drop_last()));
        lemma_grabs_answered(m, queue, frames, answers.drop_last());
        let (before, waiting) = m.grabs_answered(queue, answers.drop_last());
        assert(answers.last() == answers[k]);
        lemma_grab_answered(before, waiting, answers.last());
        assert(as_items(frames.skip(k)).drop_first() =~= as_items(frames.skip(k + 1)));
    }
}

/// Of the frames the producer hands over while nothing is grabbed, as many
/// as the queue has room for are grabbed afterwards, oldest first: grab
/// number `i` delivers `frames[i]`, mapped where the driver said in the
/// course of that grab.
pub proof fn lemma_grabbed_in_order(
    m: CaptureModel,
    queue: QueueModel,
    frames: Seq<FrameId>,
    answers: Seq<Answers>,
    i: int,
)
    requires
        m.ready(queue),
        queue.sender_attached,
        queue.items.len() == 0,
        0 <= i < answers.len() <= frames.len(),
        answers.len() <= queue.capacity,
        surveys_in_order(answers),
    ensures
        ({
            let filled = queue.arrivals(frames);
            let (before, _) = m.grabs_answered(filled, answers.take(i));
            let after = before.resized_for(answers[i].content_size, answers[i].survey);
            &&& after.staging is Some
            &&& m.grabbed(filled, answers, i) == Step::Frame(
                Frame { frame: frames[i], texture: after.staging.unwrap(), ptr: answers[i].ptr },
            )
        }),
{
    let kept = queue.kept(frames.len()) as int;
    lemma_arrivals_kept(queue, frames);
    let filled = queue.arrivals(frames);
    assert(surveys_in_order(answers.take(i)));
    lemma_grabs_answered(m, filled, frames.take(kept), answers.take(i));
    let (before, waiting) = m.grabs_answered(filled, answers.take(i));
    assert(waiting.items[0] == Some(frames[i]));
    lemma_grab_answered(before, waiting, answers[i]);
}

/// After as many whole grabs as frames were kept, none waits.
pub proof fn lemma_drained(
    m: CaptureModel,
    queue: QueueModel,
    frames: Seq<FrameId>,
    answers: Seq<Answers>,
)
    requires
        m.ready(queue),
        queue.sender_attached,
        queue.items.len() == 0,
        answers.len() == queue.kept(frames.len()),
        surveys_in_order(answers),
    ensures
        m.grabs_answered(queue.arrivals(frames), answers).1 == queue,
        m.grabs_answered(queue.arrivals(frames), answers).0.ready(queue),
{
    let kept = queue.kept(frames.len()) as int;
    lemma_arrivals_kept(queue, frames);
    let filled = queue.arrivals(frames);
    lemma_grabs_answered(m, filled, frames.take(kept), answers);
    assert(as_items(frames.take(kept).skip(kept)) =~= queue.items);
}

/// Frames whose content size is the one last seen leave a pipeline that has
/// its staging texture as it is, however many of them are grabbed.
pub proof fn lemma_steady(
    m: CaptureModel,
    queue: QueueModel,
    frames: Seq<FrameId>,
    answers: Seq<Answers>,
)
    requires
        m.ready(queue),
        m.staging is Some,
        queue.items == as_items(frames),
        answers.len() <= frames.len(),
        surveys_in_order(answers),
        forall|i: int|
            0 <= i < answers.len() ==> (#[trigger] answers[i]).content_size == m.content_size,
    ensures
        m.grabs_answered(queue, answers).0 == m,
    decreases answers.len(),
{
    if answers.len() > 0 {
        let k = answers.len() - 1;
        assert(surveys_in_order(answers.drop_last()));
        lemma_steady(m, queue, frames, answers.drop_last());
        lemma_grabs_answered(m, queue, frames, answers.drop_last());
        let (before, waiting) = m.grabs_answered(queue, answers.drop_last());
        assert(answers.last() == answers[k]);
        assert(waiting.items[0] == Some(frames[k]));
        lemma_grab_answered(before, waiting, answers.last());
    }
}

/// Frames that all find room in the queue are grabbed in the order in which
/// the compositor produced them, each exactly once, and then none waits.
/// Each comes in the staging texture as its grab leaves it, mapped where the
/// driver said in the course of that grab.
pub proof fn law_frames_are_grabbed_in_production_order(
    m: CaptureModel,
    queue: QueueModel,
    frames: Seq<FrameId>,
    answers: Seq<Answers>,
)
    requires
        m.ready(queue),
        queue.sender_attached,
        queue.items.len() == 0,
        frames.len() <= queue.capacity,
        answers.len() == frames.len(),
        surveys_in_order(answers),
    ensures
        forall|i: int|
            0 <= i < frames.len() ==> #[trigger] queue.arrival(frames, i) == Delivery::Queued,
        queue.arrivals(frames).items == as_items(frames),
        forall|i: int|
            0 <= i < frames.len() ==> (#[trigger] m.grabbed(queue.arrivals(frames), answers, i)
                matches Step::Frame(delivered) && delivered.frame == frames[i] && delivered.ptr
                == answers[i].ptr),
        m.grabs_answered(queue.arrivals(frames), answers).1 == queue,
{
    assert forall|i: int| 0 <= i < frames.len() implies #[trigger] queue.arrival(frames, i)
        == Delivery::Queued by {
        lemma_arrival(queue, frames, i);
    }
    assert forall|i: int| 0 <= i < frames.len() implies (#[trigger] m.grabbed(
        queue.arrivals(frames),
        answers,
        i,
    ) matches Step::Frame(delivered) && delivered.frame == frames[i] && delivered.ptr
        == answers[i].ptr) by {
        lemma_grabbed_in_order(m, queue, frames, answers, i);
    }
    lemma_arrivals_kept(queue, frames);
    assert(frames.take(frames.len() as int) =~= frames);
    lemma_drained(m, queue, frames, answers);
}

/// Where no frame calls for a resize, the grabs leave the pipeline exactly
/// as it was, and every frame comes in the one staging texture there is.
pub proof fn law_steady_frames_share_the_staging_texture(
    m: CaptureModel,
    queue: QueueModel,
    frames: Seq<FrameId>,
    answers: Seq<Answers>,
)
    requires
        m.ready(queue),
        m.staging is Some,
        queue.sender_attached,
        queue.items.len() == 0,
        frames.len() <= queue.capacity,
        answers.len() == frames.len(),
        surveys_in_order(answers),
        forall|i: int|
            0 <= i < answers.len() ==> (#[trigger] answers[i]).content_size == m.content_size,
    ensures
        forall|i: int|
            0 <= i < frames.len() ==> #[trigger] m.grabbed(queue.arrivals(frames), answers, i)
                == Step::Frame(
                Frame { frame: frames[i], texture: m.staging.unwrap(), ptr: answers[i].ptr },
            ),
        m.grabs_answered(queue.arrivals(frames), answers) == (m, queue),
{
    let filled = queue.arrivals(frames);
    lemma_arrivals_kept(queue, frames);
    assert(frames.take(frames.len() as int) =~= frames);
    assert forall|i: int| 0 <= i < frames.len() implies #[trigger] m.grabbed(filled, answers, i)
        == Step::Frame(
        Frame { frame: frames[i], texture: m.staging.unwrap(), ptr: answers[i].ptr },
    ) by {
        lemma_grabbed_in_order(m, queue, frames, answers, i);
        assert(surveys_in_order(answers.take(i)));
        lemma_steady(m, filled, frames, answers.take(i));
    }
    lemma_drained(m, queue, frames, answers);
    lemma_steady(m, filled, frames, answers);
}

/// When the producer hands over more frames than the queue holds while
/// nothing is grabbed, the frames that came first are kept and the later
/// ones dropped; the kept ones are then grabbed in the order in which they
/// came, and after them none waits: the next grab turns to the closure
/// notification.
pub proof fn law_overflow_drops_the_newest(
    m: CaptureModel,
    queue: QueueModel,
    frames: Seq<FrameId>,
    answers: Seq<Answers>,
)
    requires
        m.ready(queue),
        queue.sender_attached,
        queue.items.len() == 0,
        frames.len() > queue.capacity,
        answers.len() == queue.capacity,
        surveys_in_order(answers),
    ensures
        forall|i: int|
            0 <= i < frames.len() ==> #[trigger] queue.arrival(frames, i) == (if i
                < queue.capacity {
                Delivery::Queued
            } else {
                Delivery::Dropped
            }),
        queue.arrivals(frames).items == as_items(frames.take(queue.capacity as int)),
        forall|i: int|
            0 <= i < queue.capacity ==> (#[trigger] m.grabbed(queue.arrivals(frames), answers, i)
                matches Step::Frame(delivered) && delivered.frame == frames[i] && delivered.ptr
                == answers[i].ptr),
        ({
            let (after, rest) = m.grabs_answered(queue.arrivals(frames), answers);
            &&& rest == queue
            &&& after.grab(rest).2 == Step::Perform(Request::PollClosure)
        }),
{
    assert forall|i: int| 0 <= i < frames.len() implies #[trigger] queue.arrival(frames, i) == (
    if i < queue.capacity {
        Delivery::Queued
    } else {
        Delivery::Dropped
    }) by {
        lemma_arrival(queue, frames, i);
    }
    assert forall|i: int| 0 <= i < queue.capacity implies (#[trigger] m.grabbed(
        queue.arrivals(frames),
        answers,
        i,
    ) matches Step::Frame(delivered) && delivered.frame == frames[i] && delivered.ptr
        == answers[i].ptr) by {
        lemma_grabbed_in_order(m, queue, frames, answers, i);
    }
    lemma_arrivals_kept(queue, frames);
    lemma_drained(m, queue, frames, answers);
}

/// Every step keeps the pipeline well formed, and the queue never holds
/// more than its capacity.
pub proof fn law_well_formedness_is_kept(
    m: CaptureModel,
    queue: QueueModel,
    response: Response,
    frame: FrameId,
)
    requires
        m.wf(),
        queue.wf(),
        response matches Response::Surveyed(survey) ==> survey.clip_region.ordered(),
    ensures
        m.start().0.wf(),
        m.grab(queue).0.wf(),
        m.grab(queue).1.wf(),
        m.stop(queue).0.wf(),
        m.stop(queue).1.wf(),
        m.advance(queue, response).0.wf(),
        m.advance(queue, response).1.wf(),
        queue.frame_arrived(frame).0.wf(),
        queue.offer(None).0.wf(),
        queue.without_sender().wf(),
        queue.without_receiver().wf(),
{
}

/// No step leads out of `Stopped`.
pub proof fn law_stopped_is_final(m: CaptureModel, queue: QueueModel, response: Response)
    requires
        m.wf(),
        m.lifecycle is Stopped,
    ensures
        m.start().0.lifecycle is Stopped,
        m.grab(queue).0.lifecycle is Stopped,
        m.stop(queue).0.lifecycle is Stopped,
        m.advance(queue, response).0.lifecycle is Stopped,
{
}

/// A read end that was given up stays given up, and a queue without it
/// takes nothing in.
pub proof fn law_read_end_is_given_up_for_good(
    m: CaptureModel,
    queue: QueueModel,
    response: Response,
    item: Option<FrameId>,
)
    requires
        !queue.receiver_attached,
    ensures
        queue.offer(item) == (queue, Delivery::Disconnected),
        !m.grab(queue).1.receiver_attached,
        !m.stop(queue).1.receiver_attached,
        !m.advance(queue, response).1.receiver_attached,
        !queue.without_sender().receiver_attached,
{
}

/// The pipeline has the session closed of its own accord only in the step
/// in which it stops. Because no step leads out of `Stopped`, it does so at
/// most once.
pub proof fn law_pipeline_closes_the_session_once(
    m: CaptureModel,
    queue: QueueModel,
    response: Response,
)
    requires
        m.wf(),
    ensures
        m.grab(queue).2 == Step::Perform(Request::CloseSession) ==> !(m.lifecycle is Stopped)
            && m.grab(queue).0.lifecycle is Stopped,
        m.advance(queue, response).2 == Step::Perform(Request::CloseSession) ==> !(m.lifecycle
            is Stopped) && m.advance(queue, response).0.lifecycle is Stopped,
        m.advance(queue, response).2 == Step::Perform(Request::CloseFramePool) ==> m.pending()
            == Some(Request::CloseSession) && response is Completed,
        !(m.start().1 == Step::Perform(Request::CloseSession)),
{
}

/// A stopped pipeline with nothing in progress answers every grab with "no
/// frame", asks nothing of the driver for it and stays as it is.
pub proof fn law_stopped_grabs_nothing(m: CaptureModel, queue: QueueModel)
    requires
        m.lifecycle is Stopped,
        m.phase is Idle,
    ensures
        m.grab(queue) == (m, queue, Step::NoFrame),
{
}

/// When nothing waits and the closure notification says that the source is
/// gone, the grab stops the pipeline at once, gives up the read end of the
/// queue and has the session and the frame pool closed. Where both close,
/// the grab reports "no frame"; where one does not, it reports that failure
/// as a capture error. Either way the pipeline is `Stopped` with nothing in
/// progress, and the next grab reports "no frame".
pub proof fn law_closure_stops_the_pipeline(
    m: CaptureModel,
    queue: QueueModel,
    signal: Signal,
    session: Response,
    pool: Response,
)
    requires
        m.ready(queue),
        queue.sender_attached,
        queue.items.len() == 0,
        signal.source_gone(),
        session is Completed || session is Failed,
        pool is Completed || pool is Failed,
    ensures
        m.grab(queue).2 == Step::Perform(Request::PollClosure),
        ({
            let (polling, waiting, _) = m.grab(queue);
            let (closing, given_up, step) = polling.advance(waiting, Response::Closure(signal));
            &&& step == Step::Perform(Request::CloseSession)
            &&& closing.lifecycle is Stopped
            &&& given_up == queue.without_receiver()
        }),
        ({
            let (stopped, given_up, step) = m.grab_closed(queue, signal, session, pool);
            &&& session is Completed && pool is Completed ==> step == Step::NoFrame
            &&& session matches Response::Failed(failure) ==> step == Step::Failed(
                Error::Capture(failure),
            )
            &&& session is Completed ==> (pool matches Response::Failed(failure) ==> step
                == Step::Failed(Error::Capture(failure)))
            &&& stopped.wf()
            &&& stopped.lifecycle is Stopped
            &&& stopped.phase is Idle
            &&& given_up == queue.without_receiver()
            &&& stopped.grab(given_up) == (stopped, given_up, Step::NoFrame)
        }),
{
}

/// After a stop nothing resumes delivery. The pipeline is `Stopped` as soon
/// as the stop begins, and the frames that wait are given up with the read
/// end of the queue. However closing goes, afterwards a start asks nothing
/// of the driver and changes nothing, a frame the producer still hands over
/// is turned away, and a grab reports "no frame".
pub proof fn law_stop_is_not_undone_by_start(
    m: CaptureModel,
    queue: QueueModel,
    session: Response,
    pool: Response,
    frame: FrameId,
)
    requires
        m.wf(),
        m.phase is Idle,
        session is Completed || session is Failed,
        pool is Completed || pool is Failed,
    ensures
        m.stop(queue).2 == Step::Perform(Request::CloseSession),
        m.stop(queue).0.lifecycle is Stopped,
        m.stop(queue).1 == queue.without_receiver(),
        ({
            let (stopped, given_up, step) = m.stop_answered(queue, session, pool);
            &&& session is Completed && pool is Completed ==> step == Step::Done
            &&& session matches Response::Failed(failure) ==> step == Step::Failed(
                Error::Session(failure),
            )
            &&& session is Completed ==> (pool matches Response::Failed(failure) ==> step
                == Step::Failed(Error::Session(failure)))
            &&& stopped.wf()
            &&& stopped.lifecycle is Stopped
            &&& stopped.phase is Idle
            &&& given_up.items.len() == 0
            &&& stopped.start() == (stopped, Step::Done)
            &&& given_up.frame_arrived(frame) == (given_up, Delivery::Disconnected)
            &&& stopped.grab(given_up) == (stopped, given_up, Step::NoFrame)
        }),
{
}

/// When the content size of the frame at the head of the queue is not the
/// one last seen, or there is no staging texture yet, the grab takes over
/// the clip rectangle that the source reports now, has the frame pool
/// recreated at the size of the capture target and a staging texture
/// allocated that covers exactly that clip rectangle in the format of the
/// frame's surface, has the region copied, and delivers the frame in that
/// texture, mapped where the driver said in answer to this grab's mapping
/// request.
pub proof fn law_resize_tracks_the_clip_region(
    m: CaptureModel,
    queue: QueueModel,
    answers: Answers,
)
    requires
        m.ready(queue),
        queue.items.len() > 0,
        queue.items[0] is Some,
        m.needs_resize(answers.content_size),
        answers.survey.clip_region.ordered(),
    ensures
        ({
            let frame = queue.items[0].unwrap();
            let survey = answers.survey;
            let texture = StagingTexture {
                width: survey.clip_region.width(),
                height: survey.clip_region.height(),
                format: survey.format,
            };
            let pool = FramePool::sized(survey.target_size);
            let (inspecting, rest, _) = m.grab(queue);
            let surveying = inspecting.advance(rest, Response::Inspected(answers.content_size)).0;
            let recreating = surveying.advance(rest, Response::Surveyed(survey)).0;
            let allocating = recreating.advance(rest, Response::Completed).0;
            let copying = allocating.advance(rest, Response::Completed).0;
            let mapping = copying.advance(rest, Response::Completed).0;
            let (resized, waiting, step) = m.grab_answered(queue, answers);
            &&& inspecting.pending() == Some(Request::InspectFrame { frame })
            &&& surveying.pending() == Some(Request::SurveySource { frame })
            &&& recreating.pending() == Some(Request::RecreateFramePool { pool })
            &&& allocating.pending() == Some(Request::AllocateStaging { texture })
            &&& copying.pending() == Some(
                Request::CopyRegion { frame, region: survey.clip_region },
            )
            &&& mapping.pending() == Some(Request::MapStaging)
            &&& texture.width == survey.clip_region.right() - survey.clip_region.left()
            &&& texture.height == survey.clip_region.bottom() - survey.clip_region.top()
            &&& step == Step::Frame(Frame { frame, texture, ptr: answers.ptr })
            &&& resized == (CaptureModel {
                staging: Some(texture),
                clip_region: survey.clip_region,
                content_size: answers.content_size,
                frame_pool: pool,
                ..m
            })
            &&& waiting == rest
            &&& rest == queue.with_items(queue.items.drop_first())
            &&& resized.ready(waiting)
        }),
{
    answers.survey.clip_region.lemma_ordered();
}

/// A frame whose content size is the one last seen goes into the staging
/// texture there is: nothing is surveyed, recreated or allocated for it, and
/// the pipeline is afterwards as it was.
pub proof fn law_steady_frame_is_copied_without_resize(
    m: CaptureModel,
    queue: QueueModel,
    answers: Answers,
)
    requires
        m.ready(queue),
        queue.items.len() > 0,
        queue.items[0] is Some,
        !m.needs_resize(answers.content_size),
    ensures
        ({
            let frame = queue.items[0].unwrap();
            let (inspecting, rest, _) = m.grab(queue);
            let copying = inspecting.advance(rest, Response::Inspected(answers.content_size)).0;
            let mapping = copying.advance(rest, Response::Completed).0;
            &&& inspecting.pending() == Some(Request::InspectFrame { frame })
            &&& copying.pending() == Some(Request::CopyRegion { frame, region: m.clip_region })
            &&& mapping.pending() == Some(Request::MapStaging)
            &&& m.grab_answered(queue, answers) == (
                m,
                queue.with_items(queue.items.drop_first()),
                Step::Frame(Frame { frame, texture: m.staging.unwrap(), ptr: answers.ptr }),
            )
        }),
{
}

/// A frame is delivered only in answer to a mapping request, and it is
/// mapped where that answer says: no mapping outlives the grab it was made
/// for. The texture it is delivered in is the staging texture as it stands.
pub proof fn law_each_frame_is_mapped_anew(m: CaptureModel, queue: QueueModel, response: Response)
    ensures
        !(m.start().1 is Frame),
        !(m.grab(queue).2 is Frame),
        !(m.stop(queue).2 is Frame),
        (m.advance(queue, response).2 matches Step::Frame(delivered) ==> {
            &&& m.pending() == Some(Request::MapStaging)
            &&& response == Response::Mapped(delivered.ptr)
            &&& m.phase == (Phase::Mapping { frame: delivered.frame })
            &&& delivered.texture == m.staging.unwrap()
        }),
{
}

/// A failure of the platform while a frame is inspected, surveyed for,
/// resized for, copied or mapped ends the grab with a capture error and
/// leaves the pipeline in the lifecycle state it was in, with nothing in
/// progress: the next grab can go ahead.
pub proof fn law_capture_errors_are_recoverable(
    m: CaptureModel,
    queue: QueueModel,
    failure: ApiFailure,
)
    requires
        m.wf(),
        m.phase is Inspecting || m.phase is Surveying || m.phase is Recreating || m.phase
            is Allocating || m.phase is Copying || m.phase is Mapping,
    ensures
        m.advance(queue, Response::Failed(failure)) == (
            CaptureModel { phase: Phase::Idle, ..m },
            queue,
            Step::Failed(Error::Capture(failure)),
        ),
        !(m.lifecycle is Stopped),
        m.advance(queue, Response::Failed(failure)).0.wf(),
{
}

/// A request that was issued waits until it is answered, an operation that
/// has its result leaves nothing waiting, and what is rejected changes
/// nothing.
pub proof fn law_requests_wait_for_answers(m: CaptureModel, queue: QueueModel, response: Response)
    requires
        m.wf(),
    ensures
        m.start().1 matches Step::Perform(request) ==> m.start().0.pending() == Some(request),
        m.grab(queue).2 matches Step::Perform(request) ==> m.grab(queue).0.pending() == Some(
            request,
        ),
        m.stop(queue).2 matches Step::Perform(request) ==> m.stop(queue).0.pending() == Some(
            request,
        ),
        m.advance(queue, response).2 matches Step::Perform(request) ==> m.advance(
            queue,
            response,
        ).0.pending() == Some(request),
        m.start().1 is Rejected ==> m.start().0 == m && m.pending() is Some,
        m.grab(queue).2 is Rejected ==> m.grab(queue) == (m, queue, Step::Rejected) && m.pending()
            is Some,
        m.stop(queue).2 is Rejected ==> m.stop(queue) == (m, queue, Step::Rejected) && m.pending()
            is Some,
        m.advance(queue, response).2 is Rejected ==> m.advance(queue, response) == (
            m,
            queue,
            Step::Rejected,
        ),
        !(m.start().1 is Perform) && !(m.start().1 is Rejected) ==> m.start().0.phase is Idle,
        !(m.grab(queue).2 is Perform) && !(m.grab(queue).2 is Rejected) ==> m.grab(
            queue,
        ).0.phase is Idle,
        !(m.advance(queue, response).2 is Perform) && !(m.advance(queue, response).2
            is Rejected) ==> m.advance(queue, response).0.phase is Idle,
{
}

/// A response is rejected exactly if it does not answer the request that
/// waits, or none waits.
pub proof fn law_exactly_the_answers_are_accepted(
    m: CaptureModel,
    queue: QueueModel,
    response: Response,
)
    requires
        m.wf(),
    ensures
        m.advance(queue, response).2 is Rejected <==> !(m.pending() matches Some(request)
            && request.answered_by(response)),
{
}

/// Every answer that is accepted brings the operation nearer to its result,
/// with one exception: the answer that the source is still there, given
/// while no frame waits and the producer is still attached, leaves the grab
/// where it was, polling. So a grab goes on for as long as, and no longer
/// than, it takes for a frame to arrive, the stream to end or the source to
/// close.
pub proof fn law_only_waiting_for_frames_takes_long(
    m: CaptureModel,
    queue: QueueModel,
    response: Response,
)
    requires
        m.wf(),
    ensures
        ({
            let (next, rest, step) = m.advance(queue, response);
            ||| step is Rejected
            ||| next.phase.rank() < m.phase.rank()
            ||| {
                &&& m.phase is PollingClosure
                &&& response == Response::Closure(Signal::Pending)
                &&& queue.items.len() == 0
                &&& queue.sender_attached
                &&& next == m
                &&& rest == queue
                &&& step == Step::Perform(Request::PollClosure)
            }
        }),
{
}

} // verus!
