use raydar::renderer::progress::{BufferAction, FrameProgress};
use raydar::renderer::RendererConfig;

fn progress(samples: u32, bounces: u32) -> FrameProgress {
    FrameProgress::new(RendererConfig { max_sample_count: samples, max_bounces: bounces })
}

fn sample(p: &mut FrameProgress, width: u32, height: u32) -> Option<BufferAction> {
    let action = p.begin_sample(width, height);
    if action.is_some() {
        p.finish_sample();
    }
    action
}

#[test]
fn new_progress_holds_its_configuration() {
    let p = progress(8, 3);
    assert_eq!(p.sample_count(), 0);
    assert_eq!(p.max_sample_count(), 8);
    assert_eq!(p.max_bounces(), 3);
    assert!(p.profiler().frame_timer().duration().is_none());
}

#[test]
fn first_frame_allocates_then_reuse_clears() {
    let mut p = progress(4, 1);
    assert_eq!(p.new_frame(16, 16), BufferAction::Allocate);
    assert_eq!(p.new_frame(16, 16), BufferAction::Clear);
    assert_eq!(p.new_frame(16, 8), BufferAction::Allocate);
    assert_eq!(p.sample_count(), 0);
}

#[test]
fn each_sample_counts_one() {
    let mut p = progress(5, 1);
    p.new_frame(4, 4);
    for expected in 1..=5u32 {
        assert_eq!(sample(&mut p, 4, 4), Some(BufferAction::Keep));
        assert_eq!(p.sample_count(), expected);
    }
}

#[test]
fn convergence_cap_refuses_samples_until_new_frame() {
    let mut p = progress(3, 1);
    p.new_frame(2, 2);
    for _ in 0..3 {
        assert!(sample(&mut p, 2, 2).is_some());
    }
    assert_eq!(p.sample_count(), 3);
    for _ in 0..4 {
        assert_eq!(sample(&mut p, 2, 2), None);
        assert_eq!(p.sample_count(), 3);
    }
    assert_eq!(p.new_frame(2, 2), BufferAction::Clear);
    assert_eq!(sample(&mut p, 2, 2), Some(BufferAction::Keep));
    assert_eq!(p.sample_count(), 1);
}

#[test]
fn resolution_change_reallocates_and_restarts_count() {
    let mut p = progress(1024, 12);
    assert_eq!(p.new_frame(100, 100), BufferAction::Allocate);
    assert_eq!(sample(&mut p, 100, 100), Some(BufferAction::Keep));
    assert_eq!(p.sample_count(), 1);
    assert_eq!(p.new_frame(200, 200), BufferAction::Allocate);
    assert_eq!(p.sample_count(), 0);
    assert_eq!(sample(&mut p, 200, 200), Some(BufferAction::Keep));
    assert_eq!(p.sample_count(), 1);
}

#[test]
fn sample_of_another_size_reallocates() {
    let mut p = progress(10, 1);
    p.new_frame(10, 10);
    assert_eq!(sample(&mut p, 10, 10), Some(BufferAction::Keep));
    assert_eq!(sample(&mut p, 20, 10), Some(BufferAction::Allocate));
    assert_eq!(sample(&mut p, 20, 10), Some(BufferAction::Keep));
    assert_eq!(p.sample_count(), 3);
}

#[test]
fn sample_without_frame_allocates() {
    let mut p = progress(2, 1);
    assert_eq!(sample(&mut p, 3, 3), Some(BufferAction::Allocate));
    assert_eq!(p.sample_count(), 1);
}

#[test]
fn zero_sample_frame_takes_no_sample() {
    let mut p = progress(0, 1);
    p.new_frame(8, 8);
    assert_eq!(sample(&mut p, 8, 8), None);
    assert_eq!(p.sample_count(), 0);
}

#[test]
fn timers_follow_the_frame() {
    let mut p = progress(2, 1);
    p.new_frame(2, 2);
    assert!(p.profiler().prepare_timer().duration().is_none());
    sample(&mut p, 2, 2);
    assert!(p.profiler().prepare_timer().duration().is_some());
    assert!(p.profiler().sample_timer().duration().is_some());
    assert!(p.profiler().render_timer().duration().is_none());
    assert!(p.profiler().frame_timer().duration().is_none());
    sample(&mut p, 2, 2);
    assert!(p.profiler().render_timer().duration().is_some());
    assert!(p.profiler().frame_timer().duration().is_some());
}

#[test]
fn completed_frame_reports_all_samples() {
    let mut p = progress(64, 4);
    p.new_frame(32, 32);
    assert_eq!(p.begin_sample(32, 32), Some(BufferAction::Keep));
    p.complete_frame();
    assert_eq!(p.sample_count(), 64);
    assert!(p.profiler().frame_timer().duration().is_some());
    assert!(p.profiler().render_timer().duration().is_some());
    assert_eq!(p.begin_sample(32, 32), None);
    p.new_frame(32, 32);
    assert_eq!(p.sample_count(), 0);
    assert!(p.begin_sample(32, 32).is_some());
}

#[test]
fn lowering_the_cap_ends_the_frame() {
    let mut p = progress(10, 1);
    p.new_frame(1, 1);
    sample(&mut p, 1, 1);
    sample(&mut p, 1, 1);
    p.set_max_sample_count(2);
    assert_eq!(p.max_sample_count(), 2);
    assert_eq!(sample(&mut p, 1, 1), None);
    p.set_max_sample_count(3);
    assert!(sample(&mut p, 1, 1).is_some());
    p.set_max_bounces(9);
    assert_eq!(p.max_bounces(), 9);
    assert_eq!(p.sample_count(), 3);
}
