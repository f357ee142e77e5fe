//! Frame timing and pacing.
//!
//! All times are plain milliseconds; the caller reads its clock and hands the
//! current reading in, so every computation here is checkable.  The actual
//! sleeping that pads a fast frame belongs to the caller, which receives the
//! amount to wait from [`TimerInterface::pad_frame_time`].

use vstd::prelude::*;

verus! {

/// A stopwatch bounding one frame: the reading at which it started and, once
/// stopped, the reading at which it stopped.
#[derive(Copy, Clone, Debug)]
pub struct Tracker {
    begin: u64,
    end: Option<u64>,
}

impl Tracker {
    pub closed spec fn spec_begin(self) -> u64 {
        self.begin
    }

    pub closed spec fn spec_end(self) -> Option<u64> {
        self.end
    }

    /// Starts tracking at clock reading `now`.
    pub fn new(now: u64) -> (r: Self)
        ensures
            r.spec_begin() == now,
            r.spec_end() is None,
    {
        Tracker { begin: now, end: None }
    }

    /// Stops the stopwatch (if still running) and returns the elapsed time.
    /// A clock reading from before the start counts as zero elapsed.
    pub fn stop(&mut self, now: u64) -> (r: u64)
        ensures
            final(self).spec_begin() == old(self).spec_begin(),
            final(self).spec_end() == (match old(self).spec_end() {
                Some(e) => Some(e),
                None => Some(now),
            }),
            r == (match old(self).spec_end() {
                Some(e) => if e >= old(self).spec_begin() {
                    (e - old(self).spec_begin()) as u64
                } else {
                    0u64
                },
                None => if now >= old(self).spec_begin() {
                    (now - old(self).spec_begin()) as u64
                } else {
                    0u64
                },
            }),
    {
        if self.is_tracking() {
            self.end = Some(now);
        }
        let end = match self.end {
            Some(e) => e,
            None => now,
        };
        if end >= self.begin {
            end - self.begin
        } else {
            0
        }
    }

    /// Whether the stopwatch is still running.
    pub fn is_tracking(&self) -> (r: bool)
        ensures
            r == (self.spec_end() is None),
    {
        self.end.is_none()
    }

    /// The time elapsed since the start, against the given clock reading.
    pub fn peek(&self, now: u64) -> (r: u64)
        ensures
            r == if now >= self.spec_begin() {
                (now - self.spec_begin()) as u64
            } else {
                0u64
            },
    {
        if now >= self.begin {
            now - self.begin
        } else {
            0
        }
    }
}

/// The abstract state of the timer: the running stopwatch, the last completed
/// frame's duration, and the optional frame-duration cap.
pub struct TimerView {
    pub frame_tracker: Tracker,
    pub delta: u64,
    pub target_frame_time: Option<u64>,
}

/// The frame timer: measures each frame and derives how long a fast frame
/// must be padded to hold a target frame rate.
pub struct TimerInterface {
    frame_tracker: Tracker,
    delta: u64,
    target_frame_time: Option<u64>,
}

impl View for TimerInterface {
    type V = TimerView;

    closed spec fn view(&self) -> TimerView {
        TimerView {
            frame_tracker: self.frame_tracker,
            delta: self.delta,
            target_frame_time: self.target_frame_time,
        }
    }
}

impl TimerInterface {
    /// A fresh timer whose stopwatch starts at clock reading `now`; no frame
    /// has completed yet and no cap is set.
    pub fn new(now: u64) -> (r: Self)
        ensures
            r@.frame_tracker.spec_begin() == now,
            r@.frame_tracker.spec_end() is None,
            r@.delta == 0,
            r@.target_frame_time is None,
    {
        TimerInterface { frame_tracker: Tracker::new(now), delta: 0, target_frame_time: None }
    }

    /// Restarts the stopwatch for a new frame.
    pub fn start_frame_tracker(&mut self, now: u64)
        ensures
            final(self)@.frame_tracker.spec_begin() == now,
            final(self)@.frame_tracker.spec_end() is None,
            final(self)@.delta == old(self)@.delta,
            final(self)@.target_frame_time == old(self)@.target_frame_time,
    {
        self.frame_tracker = Tracker::new(now);
    }

    /// Stops the stopwatch and records the elapsed time as the frame's delta.
    pub fn end_frame_tracker(&mut self, now: u64)
        ensures
            final(self)@.delta == (match old(self)@.frame_tracker.spec_end() {
                Some(e) => if e >= old(self)@.frame_tracker.spec_begin() {
                    (e - old(self)@.frame_tracker.spec_begin()) as u64
                } else {
                    0u64
                },
                None => if now >= old(self)@.frame_tracker.spec_begin() {
                    (now - old(self)@.frame_tracker.spec_begin()) as u64
                } else {
                    0u64
                },
            }),
            final(self)@.frame_tracker.spec_begin() == old(self)@.frame_tracker.spec_begin(),
            final(self)@.frame_tracker.spec_end() is Some,
            final(self)@.target_frame_time == old(self)@.target_frame_time,
    {
        let delta = self.frame_tracker.stop(now);
        self.delta = delta;
    }

    /// The duration of the last completed frame, in milliseconds.  Only
    /// meaningful after a start/stop pair has bounded a frame.
    pub fn delta_time(&self) -> (r: u64)
        ensures
            r == self@.delta,
    {
        self.delta
    }

    /// The time the current frame has taken so far.
    pub fn current_frame_time(&self, now: u64) -> (r: u64)
        ensures
            r == if now >= self@.frame_tracker.spec_begin() {
                (now - self@.frame_tracker.spec_begin()) as u64
            } else {
                0u64
            },
    {
        self.frame_tracker.peek(now)
    }

    /// The target frame duration, if capping is enabled.
    pub fn frame_time(&self) -> (r: Option<u64>)
        ensures
            r == self@.target_frame_time,
    {
        self.target_frame_time
    }

    /// Sets or clears the target frame duration directly.
    pub fn set_target_frame_time(&mut self, target: Option<u64>)
        ensures
            final(self)@.target_frame_time == target,
            final(self)@.frame_tracker == old(self)@.frame_tracker,
            final(self)@.delta == old(self)@.delta,
    {
        self.target_frame_time = target;
    }

    /// Derives the frame-duration cap from a frame rate: `Some(n)` caps a
    /// frame at `1000 / n` milliseconds (rounded down); `None` disables
    /// capping.
    pub fn set_target_fps(&mut self, target: Option<u64>)
        requires
            target matches Some(fps) ==> fps > 0,
        ensures
            final(self)@.target_frame_time == (match target {
                Some(fps) => Some((1000u64 / fps) as u64),
                None => None,
            }),
            final(self)@.frame_tracker == old(self)@.frame_tracker,
            final(self)@.delta == old(self)@.delta,
    {
        match target {
            Some(fps) => {
                let ft = 1000u64 / fps;
                self.set_target_frame_time(Some(ft));
            },
            None => {
                self.set_target_frame_time(None);
            },
        }
    }

    /// How long the caller must block to hold the frame cap: the remainder of
    /// the target duration if the frame finished early, or nothing when no
    /// cap is set or the frame already ran long enough.
    pub fn pad_frame_time(&self, now: u64) -> (r: Option<u64>)
        ensures
            r == (match self@.target_frame_time {
                Some(target) => {
                    let elapsed = if now >= self@.frame_tracker.spec_begin() {
                        (now - self@.frame_tracker.spec_begin()) as u64
                    } else {
                        0u64
                    };
                    if elapsed < target {
                        Some((target - elapsed) as u64)
                    } else {
                        None
                    }
                },
                None => None,
            }),
    {
        match self.frame_time() {
            Some(target) => {
                let delta = self.current_frame_time(now);
                if delta < target {
                    Some(target - delta)
                } else {
                    None
                }
            },
            None => None,
        }
    }

    /// The frame-begin hook: closes the previous frame (recording its delta)
    /// and starts timing the new one.
    pub fn frame_begin(&mut self, now: u64)
        ensures
            final(self)@.delta == (match old(self)@.frame_tracker.spec_end() {
                Some(e) => if e >= old(self)@.frame_tracker.spec_begin() {
                    (e - old(self)@.frame_tracker.spec_begin()) as u64
                } else {
                    0u64
                },
                None => if now >= old(self)@.frame_tracker.spec_begin() {
                    (now - old(self)@.frame_tracker.spec_begin()) as u64
                } else {
                    0u64
                },
            }),
            final(self)@.frame_tracker.spec_begin() == now,
            final(self)@.frame_tracker.spec_end() is None,
            final(self)@.target_frame_time == old(self)@.target_frame_time,
    {
        self.end_frame_tracker(now);
        self.start_frame_tracker(now);
    }
}

} // verus!
