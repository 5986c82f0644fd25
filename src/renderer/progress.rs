//! The lifecycle of a progressively rendered frame: when the accumulation
//! buffer is allocated or cleared, when a sample may be taken, how samples are
//! counted, and which timers run meanwhile.
//!
//! A renderer owns one `FrameProgress` next to its accumulation buffer. Each
//! call tells it what to do with the buffer; the renderer does the pixel work
//! between `begin_sample` and `finish_sample`.

use crate::renderer::timing::Profiler;
use crate::renderer::RendererConfig;
use vstd::prelude::*;

verus! {

/// What a renderer must do with its accumulation buffer before it goes on.
#[derive(PartialEq, Eq, Structural, Debug, Clone, Copy)]
pub enum BufferAction {
    /// Allocate a new zeroed buffer of the requested size.
    Allocate,
    /// Zero the buffer that is there, whose size is right.
    Clear,
    /// Go on accumulating into the buffer that is there.
    Keep,
}

/// The state of a frame as a mathematical value.
pub struct ProgressView {
    /// Samples accumulated into the buffer since the frame began.
    pub sample_count: nat,
    /// Samples after which the frame is done.
    pub max_sample_count: nat,
    /// Bounces followed along one path.
    pub max_bounces: nat,
    /// The size (width, height) of the accumulation buffer, once there is one.
    pub buffer: Option<(u32, u32)>,
}

impl ProgressView {
    /// Another sample may still be taken.
    pub open spec fn can_sample(self) -> bool {
        self.sample_count < self.max_sample_count
    }

    /// The buffer there has the given size.
    pub open spec fn holds_buffer(self, width: u32, height: u32) -> bool {
        self.buffer == Some((width, height))
    }

    /// What beginning a frame of the given size does to the buffer.
    pub open spec fn frame_action(self, width: u32, height: u32) -> BufferAction {
        if self.holds_buffer(width, height) {
            BufferAction::Clear
        } else {
            BufferAction::Allocate
        }
    }

    /// What taking a sample of the given size does to the buffer.
    pub open spec fn sample_action(self, width: u32, height: u32) -> BufferAction {
        if self.holds_buffer(width, height) {
            BufferAction::Keep
        } else {
            BufferAction::Allocate
        }
    }

    /// The state with a buffer of the given size.
    pub open spec fn with_buffer(self, width: u32, height: u32) -> ProgressView {
        ProgressView { buffer: Some((width, height)), ..self }
    }

    /// The state after a new frame of the given size began.
    pub open spec fn restarted(self, width: u32, height: u32) -> ProgressView {
        ProgressView { sample_count: 0, ..self.with_buffer(width, height) }
    }

    /// The state with one more sample accumulated.
    pub open spec fn counted(self) -> ProgressView {
        ProgressView { sample_count: self.sample_count + 1, ..self }
    }

    /// The state after one sample of the given size.
    pub open spec fn sampled(self, width: u32, height: u32) -> ProgressView {
        self.with_buffer(width, height).counted()
    }

    /// The state after `n` samples of the given size, one after another.
    pub open spec fn after_samples(self, width: u32, height: u32, n: nat) -> ProgressView
        decreases n,
    {
        if n == 0 {
            self
        } else {
            self.after_samples(width, height, (n - 1) as nat).sampled(width, height)
        }
    }

    /// The state once a whole frame has been rendered in one go.
    pub open spec fn completed(self) -> ProgressView {
        ProgressView { sample_count: self.max_sample_count, ..self }
    }
}

/// A run of samples of one size keeps the buffer of that size, does not
/// touch the configuration, and counts exactly one per sample.
pub proof fn lemma_samples_count_one_each(v: ProgressView, width: u32, height: u32, n: nat)
    ensures
        v.after_samples(width, height, n).sample_count == v.sample_count + n,
        v.after_samples(width, height, n).max_sample_count == v.max_sample_count,
        v.after_samples(width, height, n).max_bounces == v.max_bounces,
        n > 0 ==> v.after_samples(width, height, n).holds_buffer(width, height),
    decreases n,
{
    if n > 0 {
        lemma_samples_count_one_each(v, width, height, (n - 1) as nat);
    }
}

/// After a new frame begins, each of its first `max_sample_count` samples is
/// taken and counted, and once that many have been taken no further sample
/// is: `begin_sample` then returns `None` and leaves the state as it is, so
/// that only a new frame lets sampling go on.
pub proof fn lemma_frame_takes_max_samples(v: ProgressView, width: u32, height: u32)
    ensures
        forall|k: nat| #![trigger v.restarted(width, height).after_samples(width, height, k)]
            k < v.max_sample_count ==> v.restarted(width, height).after_samples(
                width,
                height,
                k,
            ).can_sample(),
        v.restarted(width, height).after_samples(
            width,
            height,
            v.max_sample_count,
        ).sample_count == v.max_sample_count,
        !v.restarted(width, height).after_samples(width, height, v.max_sample_count).can_sample(),
{
    let s = v.restarted(width, height);
    assert forall|k: nat| #![trigger s.after_samples(width, height, k)]
        k < v.max_sample_count implies s.after_samples(width, height, k).can_sample() by {
        lemma_samples_count_one_each(s, width, height, k);
    }
    lemma_samples_count_one_each(s, width, height, v.max_sample_count);
}

/// A new frame of another size replaces the buffer, and no sample of the
/// earlier frame is counted in it: after a frame of size `(w1, h1)` that took
/// one sample, a frame of size `(w2, h2)` allocates a zeroed buffer, and its
/// first sample brings the count to one.
pub proof fn lemma_resize_starts_over(v: ProgressView, w1: u32, h1: u32, w2: u32, h2: u32)
    requires
        v.max_sample_count >= 1,
        (w1, h1) != (w2, h2),
    ensures
        ({
            let before = v.restarted(w1, h1).sampled(w1, h1);
            let after = before.restarted(w2, h2);
            &&& before.frame_action(w2, h2) == BufferAction::Allocate
            &&& after.sample_count == 0
            &&& after.can_sample()
            &&& after.sample_action(w2, h2) == BufferAction::Keep
            &&& after.sampled(w2, h2).sample_count == 1
            &&& after.sampled(w2, h2).holds_buffer(w2, h2)
        }),
{
}

/// The sample count, configuration, buffer size and timers of the frame that
/// a renderer is working on.
pub struct FrameProgress {
    profiler: Profiler,
    sample_count: u32,
    config: RendererConfig,
    buffer: Option<(u32, u32)>,
}

impl View for FrameProgress {
    type V = ProgressView;

    closed spec fn view(&self) -> ProgressView {
        ProgressView {
            sample_count: self.sample_count as nat,
            max_sample_count: self.config.max_sample_count as nat,
            max_bounces: self.config.max_bounces as nat,
            buffer: self.buffer,
        }
    }
}

impl FrameProgress {
    /// The timers of the frame.
    pub closed spec fn timers(&self) -> Profiler {
        self.profiler
    }

    /// The progress of a renderer with the given configuration, before its
    /// first frame: no buffer and no sample yet.
    pub fn new(config: RendererConfig) -> (r: Self)
        ensures
            r@ == (ProgressView {
                sample_count: 0,
                max_sample_count: config.max_sample_count as nat,
                max_bounces: config.max_bounces as nat,
                buffer: None,
            }),
            r.timers().is_idle(),
    {
        FrameProgress { profiler: Profiler::default(), sample_count: 0, config, buffer: None }
    }

    /// Begins a new frame of the given size: the sample count goes back to
    /// zero, the buffer is to be zeroed (allocated anew if its size differs),
    /// and the frame and preparation timers start.
    pub fn new_frame(&mut self, width: u32, height: u32) -> (r: BufferAction)
        ensures
            r == old(self)@.frame_action(width, height),
            final(self)@ == old(self)@.restarted(width, height),
            final(self).timers().frame().started_at().is_some(),
            final(self).timers().frame().measured() == old(self).timers().frame().measured(),
            final(self).timers().prepare().started_at().is_some(),
            final(self).timers().prepare().measured() == old(self).timers().prepare().measured(),
            final(self).timers().sample() == old(self).timers().sample(),
            final(self).timers().render() == old(self).timers().render(),
    {
        self.profiler.frame_timer.start();
        self.profiler.prepare_timer.start();
        let action = self.buffer_action(width, height, BufferAction::Clear);
        self.buffer = Some((width, height));
        self.sample_count = 0;
        action
    }

    /// `reuse` when the buffer there has the given size, else `Allocate`.
    fn buffer_action(&self, width: u32, height: u32, reuse: BufferAction) -> (r: BufferAction)
        ensures
            r == if self@.holds_buffer(width, height) {
                reuse
            } else {
                BufferAction::Allocate
            },
    {
        match self.buffer {
            Some((w, h)) => {
                if w == width && h == height {
                    reuse
                } else {
                    BufferAction::Allocate
                }
            },
            None => BufferAction::Allocate,
        }
    }

    /// Begins a sample of the given size. When the frame already holds all
    /// its samples this returns `None` and changes nothing. Otherwise it
    /// says what to do with the buffer first (a buffer of another size is
    /// replaced by a zeroed one), ends the preparation timer if it still runs,
    /// starts the render timer if it has not started, and starts the sample
    /// timer. The renderer then accumulates one sample into every pixel and
    /// calls `finish_sample`.
    pub fn begin_sample(&mut self, width: u32, height: u32) -> (r: Option<BufferAction>)
        ensures
            !old(self)@.can_sample() ==> r.is_none() && *final(self) == *old(self),
            old(self)@.can_sample() ==> {
                &&& r == Some(old(self)@.sample_action(width, height))
                &&& final(self)@ == old(self)@.with_buffer(width, height)
                &&& final(self).timers().frame() == old(self).timers().frame()
                &&& final(self).timers().prepare().started_at() == old(self).timers().prepare().started_at()
                &&& old(self).timers().prepare().measured().is_some() ==> final(self).timers().prepare().measured() == old(self).timers().prepare().measured()
                &&& old(self).timers().prepare().started_at().is_some() ==> final(self).timers().prepare().measured().is_some()
                &&& final(self).timers().render().started_at().is_some()
                &&& old(self).timers().render().started_at().is_some() ==> final(self).timers().render().started_at() == old(self).timers().render().started_at()
                &&& final(self).timers().render().measured() == old(self).timers().render().measured()
                &&& final(self).timers().sample().started_at().is_some()
                &&& final(self).timers().sample().measured() == old(self).timers().sample().measured()
            },
    {
        if self.sample_count >= self.config.max_sample_count {
            return None;
        }
        let action = self.buffer_action(width, height, BufferAction::Keep);
        self.buffer = Some((width, height));
        self.profiler.prepare_timer.end_if_not_ended();
        self.profiler.render_timer.start_if_not_started();
        self.profiler.sample_timer.start();
        Some(action)
    }

    /// Counts the sample that was just accumulated and ends the sample timer.
    /// When that was the last sample of the frame, the render and frame timers
    /// end too.
    pub fn finish_sample(&mut self)
        requires
            old(self)@.can_sample(),
        ensures
            final(self)@ == old(self)@.counted(),
            final(self).timers().prepare() == old(self).timers().prepare(),
            final(self).timers().sample().started_at() == old(self).timers().sample().started_at(),
            old(self).timers().sample().started_at().is_some() ==> final(self).timers().sample().measured().is_some(),
            final(self)@.can_sample() ==> {
                &&& final(self).timers().render() == old(self).timers().render()
                &&& final(self).timers().frame() == old(self).timers().frame()
            },
            !final(self)@.can_sample() ==> {
                &&& final(self).timers().render().started_at() == old(self).timers().render().started_at()
                &&& old(self).timers().render().started_at().is_some() ==> final(self).timers().render().measured().is_some()
                &&& final(self).timers().frame().started_at() == old(self).timers().frame().started_at()
                &&& old(self).timers().frame().started_at().is_some() ==> final(self).timers().frame().measured().is_some()
            },
    {
        self.sample_count = self.sample_count + 1;
        if self.sample_count == self.config.max_sample_count {
            self.profiler.render_timer.end();
            self.profiler.frame_timer.end();
        }
        self.profiler.sample_timer.end();
    }

    /// The number of samples accumulated since the frame began.
    pub fn sample_count(&self) -> (r: u32)
        ensures
            r == self@.sample_count,
    {
        self.sample_count
    }

    /// The number of samples after which a frame is done.
    pub fn max_sample_count(&self) -> (r: u32)
        ensures
            r == self@.max_sample_count,
    {
        self.config.max_sample_count
    }

    /// The number of bounces followed along one path.
    pub fn max_bounces(&self) -> (r: u32)
        ensures
            r == self@.max_bounces,
    {
        self.config.max_bounces
    }

    /// The timers of the current frame.
    pub fn profiler(&self) -> (r: &Profiler)
        ensures
            *r == self.timers(),
    {
        &self.profiler
    }

    /// Sets the number of samples after which a frame is done. A frame that
    /// already holds that many takes no further sample.
    pub fn set_max_sample_count(&mut self, count: u32)
        ensures
            final(self)@ == (ProgressView { max_sample_count: count as nat, ..old(self)@ }),
            final(self).timers() == old(self).timers(),
    {
        self.config.max_sample_count = count;
    }

    /// Sets the number of bounces followed along one path.
    pub fn set_max_bounces(&mut self, bounces: u32)
        ensures
            final(self)@ == (ProgressView { max_bounces: bounces as nat, ..old(self)@ }),
            final(self).timers() == old(self).timers(),
    {
        self.config.max_bounces = bounces;
    }

    /// Records a frame that was rendered with all its samples in one go: the
    /// sample count reaches the maximum, so that no further sample is taken
    /// until the next frame, and the sample, render and frame timers end.
    pub fn complete_frame(&mut self)
        requires
            old(self)@.can_sample(),
        ensures
            final(self)@ == old(self)@.completed(),
            !final(self)@.can_sample(),
            final(self).timers().prepare() == old(self).timers().prepare(),
            final(self).timers().sample().started_at() == old(self).timers().sample().started_at(),
            old(self).timers().sample().started_at().is_some() ==> final(self).timers().sample().measured().is_some(),
            final(self).timers().render().started_at() == old(self).timers().render().started_at(),
            old(self).timers().render().started_at().is_some() ==> final(self).timers().render().measured().is_some(),
            final(self).timers().frame().started_at() == old(self).timers().frame().started_at(),
            old(self).timers().frame().started_at().is_some() ==> final(self).timers().frame().measured().is_some(),
    {
        self.sample_count = self.config.max_sample_count;
        self.profiler.sample_timer.end();
        self.profiler.render_timer.end();
        self.profiler.frame_timer.end();
    }
}

} // verus!
