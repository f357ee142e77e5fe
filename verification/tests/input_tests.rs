//! The key-state machine across simulated frames.
//!
//! A frame's input work is: freeze the live queues (`event_begin`), run the
//! down/held/up transition (`frame_begin`), let callbacks query, merge back
//! (`event_end`); at the end of the frame the fresh-press marks are consumed
//! inside another bracket.

use v39::input::{InputManagerInterface, V39Key};

fn frame_begin(input: &mut InputManagerInterface) {
    input.event_begin();
    input.frame_begin();
}

fn frame_end(input: &mut InputManagerInterface) {
    input.event_end();
    input.event_begin();
    input.frame_end();
    input.event_end();
}

#[test]
fn down_is_fresh_for_one_frame_then_held() {
    let mut input = InputManagerInterface::new();
    input.key_down(V39Key::W);

    // Frame 1: the press is fresh and the key becomes held.
    frame_begin(&mut input);
    assert!(input.is_down(V39Key::W));
    assert!(input.is_held(V39Key::W));
    frame_end(&mut input);

    // Frames 2..5: no longer fresh, still held.
    for _ in 0..4 {
        frame_begin(&mut input);
        assert!(!input.is_down(V39Key::W));
        assert!(input.is_held(V39Key::W));
        frame_end(&mut input);
    }
}

#[test]
fn release_drops_the_key() {
    let mut input = InputManagerInterface::new();
    input.key_down(V39Key::A);

    frame_begin(&mut input);
    assert!(input.is_held(V39Key::A));
    frame_end(&mut input);

    input.key_up(V39Key::A);
    frame_begin(&mut input);
    assert!(!input.is_held(V39Key::A));
    assert!(!input.is_down(V39Key::A));
    frame_end(&mut input);
}

#[test]
fn same_frame_press_and_release_never_sticks() {
    let mut input = InputManagerInterface::new();
    input.key_down(V39Key::Space);
    input.key_up(V39Key::Space);

    // Frame 1: the press is visible as fresh, but the transition sees the
    // release too, so the key never enters the held set.
    frame_begin(&mut input);
    assert!(input.is_down(V39Key::Space));
    assert!(!input.is_held(V39Key::Space));
    frame_end(&mut input);

    // Frame 2: nothing remains.
    frame_begin(&mut input);
    assert!(!input.is_down(V39Key::Space));
    assert!(!input.is_held(V39Key::Space));
    frame_end(&mut input);
}

#[test]
fn keys_pushed_mid_frame_are_stable_within_a_pass() {
    let mut input = InputManagerInterface::new();

    frame_begin(&mut input);
    assert!(!input.is_down(V39Key::D));
    // A raw event arriving while the frame's snapshot is frozen does not
    // change the answers of the running pass.
    input.key_down(V39Key::D);
    assert!(!input.is_down(V39Key::D));
    input.event_end();

    // A later pass of the same frame takes a fresh snapshot and sees it.
    input.event_begin();
    assert!(input.is_down(V39Key::D));
    input.event_end();

    // The frame's end consumes the fresh presses: the next frame starts
    // clean, and a press never seen by a frame-begin transition is not held.
    input.event_begin();
    input.frame_end();
    input.event_end();
    frame_begin(&mut input);
    assert!(!input.is_down(V39Key::D));
    assert!(!input.is_held(V39Key::D));
    frame_end(&mut input);
}

#[test]
fn queries_read_only_the_snapshot() {
    let mut input = InputManagerInterface::new();
    input.key_down(V39Key::Q);
    // Without a snapshot the freshly pushed key is invisible.
    assert!(!input.is_down(V39Key::Q));
    input.event_begin();
    assert!(input.is_down(V39Key::Q));
    input.event_end();
}
