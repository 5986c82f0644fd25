//! Time measurement for profiling renderer operations.

use std::time::{Duration, Instant};
use vstd::prelude::*;

verus! {

/// `std::time::Instant`, carried through as an opaque value.
#[verifier::external_type_specification]
#[verifier::external_body]
pub struct ExInstant(Instant);

/// Relies on `Instant::now`: a reading of the monotonic clock, of which nothing
/// is known in advance.
#[verifier::external_body]
fn clock_now() -> (r: Instant) {
    Instant::now()
}

/// Relies on `Instant::elapsed`: the time since `start`, which depends on the clock.
#[verifier::external_body]
fn time_since(start: &Instant) -> (r: Duration) {
    start.elapsed()
}

/// Relies on `Duration`'s division by `u32`, which panics on a zero divisor.
#[verifier::external_body]
fn split_duration(total: Duration, count: u32) -> (r: Duration)
    requires
        count != 0,
{
    total / count
}

/// The four timers that a renderer keeps while it renders a frame.
pub struct Profiler {
    /// The whole of the last frame.
    pub(crate) frame_timer: Timer,
    /// The last sample.
    pub(crate) sample_timer: Timer,
    /// Preparing the scene for rendering.
    pub(crate) prepare_timer: Timer,
    /// Rendering the samples of the frame.
    pub(crate) render_timer: Timer,
}

impl Profiler {
    /// The timer of the whole frame.
    pub open(crate) spec fn frame(&self) -> Timer {
        self.frame_timer
    }

    /// The timer of the last sample.
    pub open(crate) spec fn sample(&self) -> Timer {
        self.sample_timer
    }

    /// The timer of the scene preparation.
    pub open(crate) spec fn prepare(&self) -> Timer {
        self.prepare_timer
    }

    /// The timer of the rendering of the samples.
    pub open(crate) spec fn render(&self) -> Timer {
        self.render_timer
    }

    /// No timer has been started.
    pub open spec fn is_idle(&self) -> bool {
        &&& self.frame().started_at().is_none() && self.frame().measured().is_none()
        &&& self.sample().started_at().is_none() && self.sample().measured().is_none()
        &&& self.prepare().started_at().is_none() && self.prepare().measured().is_none()
        &&& self.render().started_at().is_none() && self.render().measured().is_none()
    }

    /// The timer of the whole frame.
    pub fn frame_timer(&self) -> (r: &Timer)
        ensures
            *r == self.frame(),
    {
        &self.frame_timer
    }

    /// The timer of the last sample.
    pub fn sample_timer(&self) -> (r: &Timer)
        ensures
            *r == self.sample(),
    {
        &self.sample_timer
    }

    /// The timer of the scene preparation.
    pub fn prepare_timer(&self) -> (r: &Timer)
        ensures
            *r == self.prepare(),
    {
        &self.prepare_timer
    }

    /// The timer of the rendering of the samples.
    pub fn render_timer(&self) -> (r: &Timer)
        ensures
            *r == self.render(),
    {
        &self.render_timer
    }
}

impl Default for Profiler {
    fn default() -> (r: Self)
        ensures
            r.is_idle(),
    {
        Profiler {
            frame_timer: Timer::default(),
            sample_timer: Timer::default(),
            prepare_timer: Timer::default(),
            render_timer: Timer::default(),
        }
    }
}

/// A timer with manual start and stop control.
///
/// It measures nothing until it is started; ending a timer that was never
/// started leaves its duration unset.
pub struct Timer {
    start: Option<Instant>,
    duration: Option<Duration>,
}

impl Timer {
    /// The instant at which the timer was last started, if it was.
    pub closed spec fn started_at(&self) -> Option<Instant> {
        self.start
    }

    /// The duration measured when the timer was last ended, if it was.
    pub closed spec fn measured(&self) -> Option<Duration> {
        self.duration
    }

    /// Starts the timer at the current instant. A duration measured earlier
    /// stays until the timer is ended again.
    pub fn start(&mut self)
        ensures
            final(self).started_at().is_some(),
            final(self).measured() == old(self).measured(),
    {
        self.start = Some(clock_now());
    }

    /// Starts the timer unless it has been started already.
    pub fn start_if_not_started(&mut self)
        ensures
            final(self).started_at().is_some(),
            old(self).started_at().is_some() ==> final(self).started_at() == old(self).started_at(),
            final(self).measured() == old(self).measured(),
    {
        if self.start.is_none() {
            self.start();
        }
    }

    /// Ends the timer, measuring the time since it was started. A timer that
    /// was never started is left as it is.
    pub fn end(&mut self)
        ensures
            final(self).started_at() == old(self).started_at(),
            old(self).started_at().is_some() ==> final(self).measured().is_some(),
            old(self).started_at().is_none() ==> final(self).measured() == old(self).measured(),
    {
        if let Some(start) = &self.start {
            self.duration = Some(time_since(start));
        }
    }

    /// Ends the timer unless a duration has been measured already.
    pub fn end_if_not_ended(&mut self)
        ensures
            final(self).started_at() == old(self).started_at(),
            old(self).measured().is_some() ==> final(self).measured() == old(self).measured(),
            old(self).started_at().is_some() ==> final(self).measured().is_some(),
            old(self).started_at().is_none() ==> final(self).measured() == old(self).measured(),
    {
        if self.duration.is_none() {
            self.end();
        }
    }

    /// Ends the timer and records the average time of one of `count`
    /// iterations run since it was started.
    pub fn end_multiple(&mut self, count: u32)
        requires
            count != 0,
        ensures
            final(self).started_at() == old(self).started_at(),
            old(self).started_at().is_some() ==> final(self).measured().is_some(),
            old(self).started_at().is_none() ==> final(self).measured() == old(self).measured(),
    {
        if let Some(start) = &self.start {
            self.duration = Some(split_duration(time_since(start), count));
        }
    }

    /// The measured duration, once the timer has been started and ended.
    pub fn duration(&self) -> (r: Option<Duration>)
        ensures
            r == self.measured(),
    {
        self.duration
    }
}

impl Default for Timer {
    fn default() -> (r: Self)
        ensures
            r.started_at().is_none(),
            r.measured().is_none(),
    {
        Timer { start: None, duration: None }
    }
}

} // verus!
