//! Frame timing and pacing arithmetic.

use v39::timer::{Tracker, TimerInterface};

#[test]
fn tracker_measures_a_frame() {
    let mut t = Tracker::new(100);
    assert!(t.is_tracking());
    assert_eq!(t.peek(130), 30);
    assert_eq!(t.stop(140), 40);
    assert!(!t.is_tracking());
    // A stopped tracker keeps its reading.
    assert_eq!(t.stop(999), 40);
}

#[test]
fn delta_time_is_the_last_completed_frame() {
    let mut timer = TimerInterface::new(0);
    assert_eq!(timer.delta_time(), 0);
    timer.start_frame_tracker(1000);
    timer.end_frame_tracker(1016);
    assert_eq!(timer.delta_time(), 16);
    timer.start_frame_tracker(1016);
    timer.end_frame_tracker(1021);
    assert_eq!(timer.delta_time(), 5);
}

#[test]
fn target_fps_floors_to_milliseconds() {
    let mut timer = TimerInterface::new(0);
    assert_eq!(timer.frame_time(), None);
    timer.set_target_fps(Some(60));
    assert_eq!(timer.frame_time(), Some(16));
    timer.set_target_fps(Some(1000));
    assert_eq!(timer.frame_time(), Some(1));
    timer.set_target_fps(None);
    assert_eq!(timer.frame_time(), None);
}

#[test]
fn fast_frames_are_padded_to_the_target() {
    let mut timer = TimerInterface::new(0);
    timer.set_target_fps(Some(60));
    timer.start_frame_tracker(2000);
    // The frame finished after 5 ms; the 16 ms target leaves 11 ms to wait.
    assert_eq!(timer.pad_frame_time(2005), Some(11));
}

#[test]
fn slow_frames_are_not_padded() {
    let mut timer = TimerInterface::new(0);
    timer.set_target_fps(Some(60));
    timer.start_frame_tracker(2000);
    assert_eq!(timer.pad_frame_time(2016), None);
    assert_eq!(timer.pad_frame_time(2100), None);
}

#[test]
fn no_target_means_no_padding() {
    let mut timer = TimerInterface::new(0);
    timer.start_frame_tracker(0);
    assert_eq!(timer.pad_frame_time(1), None);
}

#[test]
fn frame_begin_closes_the_previous_frame() {
    let mut timer = TimerInterface::new(500);
    timer.frame_begin(512);
    assert_eq!(timer.delta_time(), 12);
    timer.frame_begin(530);
    assert_eq!(timer.delta_time(), 18);
}
