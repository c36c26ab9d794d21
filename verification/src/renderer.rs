//! The frame pipeline: a bounded queue in front of the converter, the
//! statistics, and the single most recent renderable frame.

use vstd::prelude::*;
use std::collections::VecDeque;
use crate::clock::now_millis;
use crate::frame::{
    convert_frame, converted, yuv420p_rgb, yuv420p_to_rgb, yuv420p_well_formed, FrameError,
    RenderableFrame, RenderableFrameView, VideoFrame, VideoFrameView,
};

verus! {

/// How the picture is fitted into the space the window offers.
#[derive(Debug, Clone, Copy, PartialEq, Eq, Structural)]
pub enum ScalingMode {
    Fit,
    Fill,
    Stretch,
    Original,
}

/// Whether scaling keeps the picture's proportions.
#[derive(Debug, Clone, Copy, PartialEq, Eq, Structural)]
pub enum AspectRatioMode {
    Maintain,
    Ignore,
}

/// A snapshot of the pipeline's counters. Frame rates are in thousandths of
/// a frame per second.
#[derive(Debug, Clone, Copy)]
pub struct VideoStatistics {
    pub frames_received: u64,
    pub current_fps: u64,
    pub target_fps: u64,
    pub frame_drops: u64,
    pub conversion_errors: u64,
    pub video_resolution: (u32, u32),
    pub display_resolution: (u32, u32),
    pub scaling_mode: ScalingMode,
}

/// Frames the queue holds when no other capacity is asked for.
pub const DEFAULT_QUEUE_CAPACITY: usize = 8;

/// The frame rate aimed at, in thousandths of a frame per second.
pub const TARGET_FPS: u64 = 30_000;

/// The pipeline as a value: everything its operations read or change.
pub struct PipelineView {
    /// Frames waiting for conversion, oldest first, each with its arrival
    /// time in milliseconds.
    pub queue: Seq<(VideoFrameView, u64)>,
    pub capacity: nat,
    pub current_frame: Option<RenderableFrameView>,
    pub video_resolution: (u32, u32),
    pub display_resolution: (u32, u32),
    pub frames_received: u64,
    pub frames_dropped: u64,
    pub conversion_errors: u64,
    pub last_arrival: Option<u64>,
    pub previous_arrival: Option<u64>,
    pub scaling_mode: ScalingMode,
    pub aspect_ratio_mode: AspectRatioMode,
}

/// One more, but never past the largest count.
pub open spec fn bump(n: u64) -> u64 {
    if n < u64::MAX {
        (n + 1) as u64
    } else {
        n
    }
}

/// The pipeline before any frame: empty queue, no picture, counters at zero.
pub open spec fn initial_pipeline(capacity: nat) -> PipelineView {
    PipelineView {
        queue: Seq::empty(),
        capacity,
        current_frame: None,
        video_resolution: (1080, 1920),
        display_resolution: (800, 600),
        frames_received: 0,
        frames_dropped: 0,
        conversion_errors: 0,
        last_arrival: None,
        previous_arrival: None,
        scaling_mode: ScalingMode::Fit,
        aspect_ratio_mode: AspectRatioMode::Maintain,
    }
}

/// The pipeline at the start of a new session: as at first, but for the
/// capacity and the display settings, which stay.
pub open spec fn restarted(s: PipelineView) -> PipelineView {
    PipelineView {
        display_resolution: s.display_resolution,
        scaling_mode: s.scaling_mode,
        aspect_ratio_mode: s.aspect_ratio_mode,
        ..initial_pipeline(s.capacity)
    }
}

/// Offering a frame to the queue: it joins the back, or, where the queue is
/// full, it is the one discarded and the drop counter moves.
pub open spec fn submitted(s: PipelineView, frame: VideoFrameView, arrived_at: u64) -> PipelineView {
    if s.queue.len() >= s.capacity {
        PipelineView { frames_dropped: bump(s.frames_dropped), ..s }
    } else {
        PipelineView { queue: s.queue.push((frame, arrived_at)), ..s }
    }
}

/// Converting one frame: on success it becomes the picture, its dimensions
/// become the video resolution and it is counted; on failure only the error
/// tally moves.
pub open spec fn processed(s: PipelineView, frame: VideoFrameView, arrived_at: u64) -> PipelineView {
    match converted(frame) {
        Some(image) => PipelineView {
            current_frame: Some(image),
            video_resolution: (frame.width, frame.height),
            frames_received: bump(s.frames_received),
            previous_arrival: s.last_arrival,
            last_arrival: Some(arrived_at),
            ..s
        },
        None => PipelineView { conversion_errors: bump(s.conversion_errors), ..s },
    }
}

/// Converting every queued frame, oldest first.
pub open spec fn drained(s: PipelineView) -> PipelineView
    decreases s.queue.len(),
{
    if s.queue.len() == 0 {
        s
    } else {
        drained(
            processed(
                PipelineView { queue: s.queue.drop_first(), ..s },
                s.queue[0].0,
                s.queue[0].1,
            ),
        )
    }
}

/// The frame rate that two arrival times a known interval apart amount to,
/// in thousandths of a frame per second; zero before the second frame and
/// where the two arrived within the same millisecond.
pub open spec fn fps_thousandths(previous: Option<u64>, last: Option<u64>) -> u64 {
    match (previous, last) {
        (Some(p), Some(l)) => if l > p {
            (1_000_000int / (l - p)) as u64
        } else {
            0
        },
        _ => 0,
    }
}

/// The counters of a pipeline, as `get_statistics` reports them.
pub open spec fn statistics_of(s: PipelineView) -> VideoStatistics {
    VideoStatistics {
        frames_received: s.frames_received,
        current_fps: fps_thousandths(s.previous_arrival, s.last_arrival),
        target_fps: TARGET_FPS,
        frame_drops: s.frames_dropped,
        conversion_errors: s.conversion_errors,
        video_resolution: s.video_resolution,
        display_resolution: s.display_resolution,
        scaling_mode: s.scaling_mode,
    }
}

/// None of the three counters of `after` is below that of `before`.
pub open spec fn counters_not_below(after: PipelineView, before: PipelineView) -> bool {
    &&& after.frames_received >= before.frames_received
    &&& after.frames_dropped >= before.frames_dropped
    &&& after.conversion_errors >= before.conversion_errors
}

/// The queued frames by their views.
pub open spec fn queue_view(queue: Seq<(VideoFrame, u64)>) -> Seq<(VideoFrameView, u64)> {
    Seq::new(queue.len(), |i: int| (queue[i].0@, queue[i].1))
}

/// Receives frames, converts them and keeps the latest picture.
pub struct VideoRenderer {
    current_frame: Option<RenderableFrame>,
    frame_buffer: VecDeque<(VideoFrame, u64)>,
    queue_capacity: usize,
    video_resolution: (u32, u32),
    display_resolution: (u32, u32),
    frames_received: u64,
    last_frame_time: Option<u64>,
    previous_frame_time: Option<u64>,
    frame_drop_count: u64,
    conversion_errors: u64,
    scaling_mode: ScalingMode,
    aspect_ratio_mode: AspectRatioMode,
}

impl View for VideoRenderer {
    type V = PipelineView;

    closed spec fn view(&self) -> PipelineView {
        PipelineView {
            queue: queue_view(self.frame_buffer@),
            capacity: self.queue_capacity as nat,
            current_frame: match self.current_frame {
                Some(f) => Some(f@),
                None => None,
            },
            video_resolution: self.video_resolution,
            display_resolution: self.display_resolution,
            frames_received: self.frames_received,
            frames_dropped: self.frame_drop_count,
            conversion_errors: self.conversion_errors,
            last_arrival: self.last_frame_time,
            previous_arrival: self.previous_frame_time,
            scaling_mode: self.scaling_mode,
            aspect_ratio_mode: self.aspect_ratio_mode,
        }
    }
}

/// What holds of a pipeline from its creation on, whatever is done to it:
/// the queue is within its capacity, and the picture, where there is one, has
/// the video resolution.
pub open spec fn pipeline_invariant(s: PipelineView) -> bool {
    &&& s.queue.len() <= s.capacity
    &&& s.capacity <= usize::MAX
    &&& match s.current_frame {
        Some(f) => (f.width, f.height) == s.video_resolution,
        None => true,
    }
}

impl VideoRenderer {
    /// A pipeline with the default queue capacity.
    pub fn new() -> (r: Self)
        ensures
            r@ == initial_pipeline(DEFAULT_QUEUE_CAPACITY as nat),
            pipeline_invariant(r@),
    {
        Self::with_capacity(DEFAULT_QUEUE_CAPACITY)
    }

    /// A pipeline whose queue holds at most `capacity` frames.
    pub fn with_capacity(capacity: usize) -> (r: Self)
        ensures
            r@ == initial_pipeline(capacity as nat),
            pipeline_invariant(r@),
    {
        let r = VideoRenderer {
            current_frame: None,
            frame_buffer: VecDeque::new(),
            queue_capacity: capacity,
            video_resolution: (1080, 1920),
            display_resolution: (800, 600),
            frames_received: 0,
            last_frame_time: None,
            previous_frame_time: None,
            frame_drop_count: 0,
            conversion_errors: 0,
            scaling_mode: ScalingMode::Fit,
            aspect_ratio_mode: AspectRatioMode::Maintain,
        };
        assert(r@.queue =~= Seq::empty());
        r
    }


    /// Offers a frame to the queue without waiting.
    ///
    /// Returns whether the frame was queued. Where the queue is full the
    /// frame offered is the one discarded, and the drop counter moves.
    pub fn submit_frame(&mut self, frame: VideoFrame, arrived_at: u64) -> (queued: bool)
        ensures
            final(self)@ == submitted(old(self)@, frame@, arrived_at),
            queued == (old(self)@.queue.len() < old(self)@.capacity),
    {
        if self.frame_buffer.len() >= self.queue_capacity {
            if self.frame_drop_count < u64::MAX {
                self.frame_drop_count = self.frame_drop_count + 1;
            }
            false
        } else {
            let ghost before = self.frame_buffer@;
            self.frame_buffer.push_back((frame, arrived_at));
            proof {
                assert(queue_view(self.frame_buffer@) =~= queue_view(before).push(
                    (frame@, arrived_at),
                ));
            }
            true
        }
    }

    /// Converts one frame that arrived at `arrived_at` and, on success, makes
    /// it the picture.
    ///
    /// A malformed frame is discarded: the picture, the resolution and the
    /// count of frames received stay as they were, and the error tally moves.
    pub fn receive_frame_at(&mut self, frame: VideoFrame, arrived_at: u64) -> (r: Result<
        (),
        FrameError,
    >)
        ensures
            final(self)@ == processed(old(self)@, frame@, arrived_at),
            converted(frame@) is Some ==> r is Ok,
            converted(frame@) is None ==> r is Err && r->Err_0 == FrameError::MalformedFrame,
            r is Err ==> final(self)@.current_frame == old(self)@.current_frame,
    {
        match convert_frame(&frame) {
            Ok(image) => {
                self.video_resolution = (frame.width, frame.height);
                self.current_frame = Some(image);
                if self.frames_received < u64::MAX {
                    self.frames_received = self.frames_received + 1;
                }
                self.previous_frame_time = self.last_frame_time;
                self.last_frame_time = Some(arrived_at);
                Ok(())
            },
            Err(e) => {
                if self.conversion_errors < u64::MAX {
                    self.conversion_errors = self.conversion_errors + 1;
                }
                Err(e)
            },
        }
    }

    /// Converts one frame, taking the wall clock's reading as its arrival
    /// time.
    pub fn receive_frame(&mut self, frame: VideoFrame) -> (r: Result<(), FrameError>)
        ensures
            exists|arrived_at: u64| final(self)@ == processed(old(self)@, frame@, arrived_at),
            converted(frame@) is Some ==> r is Ok,
            converted(frame@) is None ==> r is Err && r->Err_0 == FrameError::MalformedFrame,
            r is Err ==> final(self)@.current_frame == old(self)@.current_frame,
    {
        let now = now_millis();
        self.receive_frame_at(frame, now)
    }

    /// Converts every queued frame, oldest first, and leaves the queue empty.
    pub fn update(&mut self)
        ensures
            final(self)@ == drained(old(self)@),
            final(self)@.queue.len() == 0,
    {
        loop
            invariant
                drained(self@) == drained(old(self)@),
            ensures
                self@ == drained(old(self)@),
                self@.queue.len() == 0,
            decreases self@.queue.len(),
        {
            let ghost before = self@;
            match self.frame_buffer.pop_front() {
                Some((frame, arrived_at)) => {
                    proof {
                        assert(queue_view(self.frame_buffer@) =~= before.queue.drop_first());
                    }
                    let _ = self.receive_frame_at(frame, arrived_at);
                },
                None => {
                    break ;
                },
            }
        }
    }

    /// The most recent picture, if any frame has been converted yet.
    pub fn get_current_frame(&self) -> (r: Option<&RenderableFrame>)
        ensures
            match r {
                Some(f) => self@.current_frame == Some(f@),
                None => self@.current_frame is None,
            },
    {
        self.current_frame.as_ref()
    }

    /// How many frames wait in the queue.
    pub fn queued_frames(&self) -> (n: usize)
        ensures
            n == self@.queue.len(),
    {
        self.frame_buffer.len()
    }

    /// The counters as they stand.
    pub fn get_statistics(&self) -> (r: VideoStatistics)
        ensures
            r == statistics_of(self@),
    {
        let fps: u64 = match (self.previous_frame_time, self.last_frame_time) {
            (Some(p), Some(l)) => if l > p {
                1_000_000 / (l - p)
            } else {
                0
            },
            _ => 0,
        };
        VideoStatistics {
            frames_received: self.frames_received,
            current_fps: fps,
            target_fps: TARGET_FPS,
            frame_drops: self.frame_drop_count,
            conversion_errors: self.conversion_errors,
            video_resolution: self.video_resolution,
            display_resolution: self.display_resolution,
            scaling_mode: self.scaling_mode,
        }
    }

    /// Chooses how the picture is fitted into the window.
    pub fn set_scaling_mode(&mut self, mode: ScalingMode)
        ensures
            final(self)@ == (PipelineView { scaling_mode: mode, ..old(self)@ }),
    {
        self.scaling_mode = mode;
    }

    /// Notes the size of the space the window offers the picture.
    pub fn set_display_resolution(&mut self, width: u32, height: u32)
        ensures
            final(self)@ == (PipelineView { display_resolution: (width, height), ..old(self)@ }),
    {
        self.display_resolution = (width, height);
    }

    /// Chooses whether scaling keeps the picture's proportions.
    pub fn set_aspect_ratio_mode(&mut self, mode: AspectRatioMode)
        ensures
            final(self)@ == (PipelineView { aspect_ratio_mode: mode, ..old(self)@ }),
    {
        self.aspect_ratio_mode = mode;
    }

    /// Starts over for a new session: the queue is emptied, the picture is
    /// dropped and the counters return to zero. Capacity and display settings
    /// stay.
    pub fn reset(&mut self)
        ensures
            final(self)@ == restarted(old(self)@),
    {
        self.frame_buffer.clear();
        self.current_frame = None;
        self.video_resolution = (1080, 1920);
        self.frames_received = 0;
        self.frame_drop_count = 0;
        self.conversion_errors = 0;
        self.last_frame_time = None;
        self.previous_frame_time = None;
        proof {
            assert(self@.queue =~= Seq::empty());
        }
    }

    /// Converts a planar 4:2:0 buffer to RGB24.
    pub fn yuv420p_to_rgb(&self, yuv_data: &[u8], width: u32, height: u32) -> (r: Result<
        Vec<u8>,
        FrameError,
    >)
        ensures
            yuv420p_well_formed(yuv_data@.len(), width as nat, height as nat) ==> r is Ok
                && r->Ok_0@ == yuv420p_rgb(yuv_data@, width as nat, height as nat),
            !yuv420p_well_formed(yuv_data@.len(), width as nat, height as nat) ==> r is Err
                && r->Err_0 == FrameError::MalformedFrame,
    {
        yuv420p_to_rgb(yuv_data, width, height)
    }
}

impl Default for VideoRenderer {
    fn default() -> (r: Self)
        ensures
            r@ == initial_pipeline(DEFAULT_QUEUE_CAPACITY as nat),
    {
        VideoRenderer::new()
    }
}

/// Offering the frames of `frames` one after another, first to last.
pub open spec fn submit_all(s: PipelineView, frames: Seq<(VideoFrameView, u64)>) -> PipelineView
    decreases frames.len(),
{
    if frames.len() == 0 {
        s
    } else {
        submitted(submit_all(s, frames.drop_last()), frames.last().0, frames.last().1)
    }
}

/// A new pipeline satisfies the invariant.
pub proof fn lemma_initial_invariant(capacity: nat)
    requires
        capacity <= usize::MAX,
    ensures
        pipeline_invariant(initial_pipeline(capacity)),
{
}

/// Starting over keeps the invariant.
pub proof fn lemma_restart_invariant(s: PipelineView)
    requires
        pipeline_invariant(s),
    ensures
        pipeline_invariant(restarted(s)),
{
}

/// Offering a frame keeps the invariant.
pub proof fn lemma_submit_invariant(s: PipelineView, frame: VideoFrameView, arrived_at: u64)
    requires
        pipeline_invariant(s),
    ensures
        pipeline_invariant(submitted(s, frame, arrived_at)),
{
}

/// Converting a frame keeps the invariant: a picture always carries the
/// dimensions of the frame that was converted last.
pub proof fn lemma_process_invariant(s: PipelineView, frame: VideoFrameView, arrived_at: u64)
    requires
        pipeline_invariant(s),
    ensures
        pipeline_invariant(processed(s, frame, arrived_at)),
{
}

/// Draining the queue keeps the invariant, empties the queue, never moves the
/// drop counter, and counts at most as many frames as were queued.
pub proof fn lemma_drain(s: PipelineView)
    requires
        pipeline_invariant(s),
    ensures
        pipeline_invariant(drained(s)),
        drained(s).queue.len() == 0,
        drained(s).capacity == s.capacity,
        drained(s).frames_dropped == s.frames_dropped,
        s.frames_received <= drained(s).frames_received <= s.frames_received + s.queue.len(),
    decreases s.queue.len(),
{
    if s.queue.len() > 0 {
        let rest = PipelineView { queue: s.queue.drop_first(), ..s };
        let next = processed(rest, s.queue[0].0, s.queue[0].1);
        lemma_drain(next);
    }
}

/// The counters only grow: offering a frame, converting a frame and draining
/// the queue never lower the count of frames received, of frames dropped or
/// of conversion errors.
pub proof fn lemma_counters_only_grow(s: PipelineView, frame: VideoFrameView, arrived_at: u64)
    ensures
        counters_not_below(submitted(s, frame, arrived_at), s),
        counters_not_below(processed(s, frame, arrived_at), s),
        counters_not_below(drained(s), s),
{
    lemma_drain_counters(s);
}

/// Draining never lowers a counter.
proof fn lemma_drain_counters(s: PipelineView)
    ensures
        counters_not_below(drained(s), s),
    decreases s.queue.len(),
{
    if s.queue.len() > 0 {
        let rest = PipelineView { queue: s.queue.drop_first(), ..s };
        lemma_drain_counters(processed(rest, s.queue[0].0, s.queue[0].1));
    }
}

/// While there is room, every frame offered is queued in order and nothing is
/// dropped.
pub proof fn lemma_submit_within_capacity(s: PipelineView, frames: Seq<(VideoFrameView, u64)>)
    requires
        s.queue.len() + frames.len() <= s.capacity,
    ensures
        submit_all(s, frames) == (PipelineView { queue: s.queue + frames, ..s }),
    decreases frames.len(),
{
    if frames.len() == 0 {
    } else {
        lemma_submit_within_capacity(s, frames.drop_last());
        assert((s.queue + frames.drop_last()).push(frames.last()) =~= s.queue + frames);
    }
}

/// Backpressure: of one frame more than an empty queue can hold, exactly the
/// newest is dropped. The drop counter moves by one, the others wait in the
/// order they came, no frame counts as received until the queue is drained,
/// and draining counts at most as many as the queue holds.
pub proof fn lemma_backpressure(s: PipelineView, frames: Seq<(VideoFrameView, u64)>)
    requires
        pipeline_invariant(s),
        s.queue.len() == 0,
        frames.len() == s.capacity + 1,
        s.frames_dropped < u64::MAX,
    ensures
        submit_all(s, frames).frames_dropped == s.frames_dropped + 1,
        submit_all(s, frames).queue == frames.drop_last(),
        submit_all(s, frames).frames_received == s.frames_received,
        drained(submit_all(s, frames)).frames_dropped == s.frames_dropped + 1,
        drained(submit_all(s, frames)).frames_received <= s.frames_received + s.capacity,
{
    lemma_submit_within_capacity(s, frames.drop_last());
    lemma_drain(submit_all(s, frames));
}

} // verus!
