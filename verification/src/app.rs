//! The runtime context: the event hub, the input manager and the frame timer
//! under one root object, plus the per-frame decision logic of the main loop.
//!
//! Every dispatch pass is bracketed by the input manager's snapshot
//! (`event_begin`) and merge (`event_end`), so key queries give one stable
//! answer for the whole pass.  The input manager and the timer act as the
//! engine's own receivers: they see each engine event before the user's
//! receivers do.  The caller owns the clock and the window pump: it hands
//! clock readings in and performs the sleep that `pad_frame_time` asks for.

use vstd::prelude::*;

use crate::error::V39Result;
use crate::event::{EngineEvent, Event, EventReceiver};
use crate::event_handler::{
    fire_engine_event_rel, fire_events_rel, fire_single_rel, EventHandlerInterface,
    EventHandlerView,
};
use crate::input::{InputManagerInterface, InputView, V39Key};
use crate::timer::{TimerInterface, TimerView};

verus! {

/// The keys carried by the `KeyDown` events of a sequence, in order.
pub open spec fn down_keys_of(events: Seq<EngineEvent>) -> Seq<V39Key>
    decreases events.len(),
{
    if events.len() == 0 {
        Seq::empty()
    } else {
        down_keys_of(events.drop_last()) + (match events.last() {
            EngineEvent::KeyDown(Some(k)) => seq![k],
            _ => Seq::empty(),
        })
    }
}

/// The keys carried by the `KeyUp` events of a sequence, in order.
pub open spec fn up_keys_of(events: Seq<EngineEvent>) -> Seq<V39Key>
    decreases events.len(),
{
    if events.len() == 0 {
        Seq::empty()
    } else {
        up_keys_of(events.drop_last()) + (match events.last() {
            EngineEvent::KeyUp(Some(k)) => seq![k],
            _ => Seq::empty(),
        })
    }
}

/// Initialization parameters for the windowed application around the engine:
/// the window caption and the initial size in pixels.  The window layer
/// consumes these when it creates the window.
pub struct InitProps {
    pub title: String,
    pub screen_width: u32,
    pub screen_height: u32,
}

impl InitProps {
    pub fn new(title: String, screen_width: u32, screen_height: u32) -> (r: Self)
        ensures
            r.title == title,
            r.screen_width == screen_width,
            r.screen_height == screen_height,
    {
        InitProps { title, screen_width, screen_height }
    }
}

impl Default for InitProps {
    /// The documented defaults: an 800 by 600 window captioned "V39 App".
    fn default() -> (r: Self)
        ensures
            r.title@ == "V39 App"@,
            r.screen_width == 800,
            r.screen_height == 600,
    {
        InitProps { title: "V39 App".to_owned(), screen_width: 800, screen_height: 600 }
    }
}

/// The dispatch work of one main-loop iteration, pass by pass: starting from
/// the hub state `pre`, the runtime fires the queued `KeyDown` matches, the
/// queued `KeyUp` matches, a single `FrameBegin`, a single `Tick` carrying
/// `delta`, the queued `WindowClose` matches, one full user-event drain, and
/// a single `FrameEnd`, each pass related to the next hub state by its own
/// contract (`fire_engine_event_rel`, `fire_single_rel`, `fire_events_rel`),
/// ending in `post`.
pub open spec fn frame_passes_rel<R>(
    pre: EventHandlerView<R>,
    post: EventHandlerView<R>,
    delta: u64,
) -> bool {
    exists|
        v1: EventHandlerView<R>,
        v2: EventHandlerView<R>,
        v3: EventHandlerView<R>,
        v4: EventHandlerView<R>,
        v5: EventHandlerView<R>,
        v6: EventHandlerView<R>,
    |
        {
            &&& #[trigger] fire_engine_event_rel(pre, v1, EngineEvent::KeyDown(None))
            &&& #[trigger] fire_engine_event_rel(v1, v2, EngineEvent::KeyUp(None))
            &&& #[trigger] fire_single_rel(v2, v3, EngineEvent::FrameBegin)
            &&& #[trigger] fire_single_rel(v3, v4, EngineEvent::Tick(Some(delta)))
            &&& #[trigger] fire_engine_event_rel(v4, v5, EngineEvent::WindowClose)
            &&& #[trigger] fire_events_rel(v5, v6)
            &&& fire_single_rel(v6, post, EngineEvent::FrameEnd)
        }
}

proof fn lemma_frame_passes_intro<R>(
    pre: EventHandlerView<R>,
    v1: EventHandlerView<R>,
    v2: EventHandlerView<R>,
    v3: EventHandlerView<R>,
    v4: EventHandlerView<R>,
    v5: EventHandlerView<R>,
    v6: EventHandlerView<R>,
    post: EventHandlerView<R>,
    delta: u64,
)
    requires
        fire_engine_event_rel(pre, v1, EngineEvent::KeyDown(None)),
        fire_engine_event_rel(v1, v2, EngineEvent::KeyUp(None)),
        fire_single_rel(v2, v3, EngineEvent::FrameBegin),
        fire_single_rel(v3, v4, EngineEvent::Tick(Some(delta))),
        fire_engine_event_rel(v4, v5, EngineEvent::WindowClose),
        fire_events_rel(v5, v6),
        fire_single_rel(v6, post, EngineEvent::FrameEnd),
    ensures
        frame_passes_rel(pre, post, delta),
{
}

/// The abstract state of the whole runtime.
pub struct AppView<R> {
    pub handler: EventHandlerView<R>,
    pub input: InputView,
    pub timer: TimerView,
    pub quit: bool,
}

/// The root application context: owns the subsystems and drives the frame
/// sequence.
pub struct App<R> {
    event_handler: EventHandlerInterface<R>,
    input_manager: InputManagerInterface,
    timer: TimerInterface,
    quit: bool,
}

impl<R> View for App<R> {
    type V = AppView<R>;

    closed spec fn view(&self) -> AppView<R> {
        AppView {
            handler: self.event_handler@,
            input: self.input_manager@,
            timer: self.timer@,
            quit: self.quit,
        }
    }
}

impl<R: EventReceiver> App<R> {
    /// Builds the runtime with fresh subsystems; the timer's stopwatch starts
    /// at the given clock reading.
    pub fn init(now_ms: u64) -> (r: Self)
        ensures
            r@.handler.events.len() == 0,
            r@.handler.engine_events.len() == 0,
            r@.handler.receivers.len() == 0,
            r@.handler.locked_events.len() == 0,
            r@.handler.locked_engine_events.len() == 0,
            r@.handler.locked_receivers.len() == 0,
            !r@.handler.quit_requested,
            r@.handler.deliveries.len() == 0,
            r@.handler.queued_events.len() == 0,
            r@.handler.queued_engine_events.len() == 0,
            r@.handler.added_receivers.len() == 0,
            r@.input.keys_down.len() == 0,
            r@.input.keys_up.len() == 0,
            r@.input.keys_held.len() == 0,
            r@.input.snapshot_keys_down.len() == 0,
            r@.input.snapshot_keys_up.len() == 0,
            r@.input.snapshot_keys_held.len() == 0,
            r@.timer.frame_tracker.spec_begin() == now_ms,
            r@.timer.delta == 0,
            r@.timer.target_frame_time is None,
            !r@.quit,
    {
        App {
            event_handler: EventHandlerInterface::new(),
            input_manager: InputManagerInterface::new(),
            timer: TimerInterface::new(now_ms),
            quit: false,
        }
    }

    /// Read access to the event hub.
    pub fn event_handler(&self) -> (r: &EventHandlerInterface<R>)
        ensures
            r@ == self@.handler,
    {
        &self.event_handler
    }

    /// Read access to the input manager, for `is_down` / `is_held` queries.
    pub fn input_manager(&self) -> (r: &InputManagerInterface)
        ensures
            r@ == self@.input,
    {
        &self.input_manager
    }

    /// Read access to the timer.
    pub fn timer(&self) -> (r: &TimerInterface)
        ensures
            r@ == self@.timer,
    {
        &self.timer
    }

    /// Raises the runtime's quit flag; the loop observes it at the top of the
    /// next iteration.
    pub fn quit(&mut self)
        ensures
            final(self)@ == (AppView { quit: true, ..old(self)@ }),
    {
        self.quit = true;
    }

    /// Whether the loop should stop: the runtime or any receiver has asked.
    pub fn should_quit(&self) -> (r: bool)
        ensures
            r == (self@.quit || self@.handler.quit_requested),
    {
        self.quit || self.event_handler.quit_requested()
    }

    /// Queues a user event for the next `fire_events` pass.
    pub fn queue_event(&mut self, event: Event)
        ensures
            final(self)@ == (AppView {
                handler: (EventHandlerView {
                    events: old(self)@.handler.events.push(event),
                    queued_events: old(self)@.handler.queued_events.push(event),
                    ..old(self)@.handler
                }),
                ..old(self)@
            }),
    {
        self.event_handler.queue_event(event);
    }

    /// Queues an engine event for the next matching pass.
    pub fn queue_engine_event(&mut self, event: EngineEvent)
        ensures
            final(self)@ == (AppView {
                handler: (EventHandlerView {
                    engine_events: old(self)@.handler.engine_events.push(event),
                    queued_engine_events: old(self)@.handler.queued_engine_events.push(event),
                    ..old(self)@.handler
                }),
                ..old(self)@
            }),
    {
        self.event_handler.queue_engine_event(event);
    }

    /// Registers a receiver.
    pub fn add_receiver(&mut self, receiver: R)
        ensures
            final(self)@ == (AppView {
                handler: (EventHandlerView {
                    receivers: old(self)@.handler.receivers.push(receiver),
                    added_receivers: old(self)@.handler.added_receivers.push(receiver),
                    ..old(self)@.handler
                }),
                ..old(self)@
            }),
    {
        self.event_handler.add_receiver(receiver);
    }

    /// Opens a dispatch bracket: freezes the input state so queries answer
    /// consistently for the whole pass.
    fn event_dispatch_begin(&mut self)
        ensures
            final(self)@ == (AppView {
                input: (InputView {
                    keys_down: Seq::empty(),
                    keys_up: Seq::empty(),
                    keys_held: Seq::empty(),
                    snapshot_keys_down: old(self)@.input.keys_down,
                    snapshot_keys_up: old(self)@.input.keys_up,
                    snapshot_keys_held: old(self)@.input.keys_held,
                }),
                ..old(self)@
            }),
    {
        self.input_manager.event_begin();
    }

    /// Closes a dispatch bracket: merges the frozen input state back,
    /// absorbing raw keys pushed mid-pass.
    fn event_dispatch_end(&mut self)
        ensures
            final(self)@ == (AppView {
                input: (InputView {
                    keys_down: old(self)@.input.keys_down + old(self)@.input.snapshot_keys_down,
                    keys_up: old(self)@.input.keys_up + old(self)@.input.snapshot_keys_up,
                    keys_held: old(self)@.input.keys_held + old(self)@.input.snapshot_keys_held,
                    snapshot_keys_down: Seq::empty(),
                    snapshot_keys_up: Seq::empty(),
                    snapshot_keys_held: Seq::empty(),
                }),
                ..old(self)@
            }),
    {
        self.input_manager.event_end();
    }

    /// Dispatches one engine event to every registered receiver, bypassing
    /// the queue, inside an input bracket.  The engine's own receivers run
    /// first: a key event lands in the input manager's live queues, frame
    /// begin runs the key-state transition and restarts the timer, frame end
    /// consumes the fresh-press marks.
    pub fn fire_single_engine_event(&mut self, event: EngineEvent, now_ms: u64) -> (r: V39Result<
        (),
    >)
        ensures
            r is Ok,
            fire_single_rel(old(self)@.handler, final(self)@.handler, event),
            final(self)@.quit == old(self)@.quit,
            final(self)@.input.snapshot_keys_down.len() == 0,
            final(self)@.input.snapshot_keys_up.len() == 0,
            final(self)@.input.snapshot_keys_held.len() == 0,
            ({
                let pre = old(self)@.input;
                let post = final(self)@.input;
                match event {
                    EngineEvent::KeyDown(Some(k)) => post.keys_down == seq![k] + pre.keys_down
                        && post.keys_up == pre.keys_up && post.keys_held == pre.keys_held,
                    EngineEvent::KeyUp(Some(k)) => post.keys_up == seq![k] + pre.keys_up
                        && post.keys_down == pre.keys_down && post.keys_held == pre.keys_held,
                    EngineEvent::FrameBegin => post.keys_down == pre.keys_down
                        && post.keys_up.len() == 0 && (forall|k: V39Key|
                        post.keys_held.contains(k) <==> ((pre.keys_down.contains(k)
                            || pre.keys_held.contains(k)) && !pre.keys_up.contains(k))),
                    EngineEvent::FrameEnd => post.keys_down.len() == 0 && post.keys_up
                        == pre.keys_up && post.keys_held == pre.keys_held,
                    _ => post.keys_down == pre.keys_down && post.keys_up == pre.keys_up
                        && post.keys_held == pre.keys_held,
                }
            }),
            ({
                let pre = old(self)@.timer;
                let post = final(self)@.timer;
                match event {
                    EngineEvent::FrameBegin => post.delta == (match pre.frame_tracker.spec_end() {
                        Some(e) => if e >= pre.frame_tracker.spec_begin() {
                            (e - pre.frame_tracker.spec_begin()) as u64
                        } else {
                            0u64
                        },
                        None => if now_ms >= pre.frame_tracker.spec_begin() {
                            (now_ms - pre.frame_tracker.spec_begin()) as u64
                        } else {
                            0u64
                        },
                    }) && post.frame_tracker.spec_begin() == now_ms
                        && post.frame_tracker.spec_end() is None && post.target_frame_time
                        == pre.target_frame_time,
                    _ => post == pre,
                }
            }),
    {
        self.event_dispatch_begin();
        match event {
            EngineEvent::KeyDown(Some(key)) => {
                self.input_manager.key_down(key);
            },
            EngineEvent::KeyUp(Some(key)) => {
                self.input_manager.key_up(key);
            },
            EngineEvent::FrameBegin => {
                self.input_manager.frame_begin();
                self.timer.frame_begin(now_ms);
            },
            EngineEvent::FrameEnd => {
                self.input_manager.frame_end();
            },
            _ => {},
        }
        let result = self.event_handler.fire_single_engine_event(event);
        self.event_dispatch_end();
        result
    }

    /// Fires the queued engine events of one variant, inside an input
    /// bracket.  The input manager ingests every matched raw key event before
    /// the pass hands the events to the user's receivers.
    pub fn fire_engine_event(&mut self, event_kind: EngineEvent) -> (r: V39Result<()>)
        ensures
            r is Ok,
            fire_engine_event_rel(old(self)@.handler, final(self)@.handler, event_kind),
            ({
                let matched = old(self)@.handler.engine_events.filter(
                    |e: EngineEvent| e.spec_var_eq(event_kind),
                );
                &&& final(self)@.input.keys_down == down_keys_of(matched) + old(
                    self,
                )@.input.keys_down
                &&& final(self)@.input.keys_up == up_keys_of(matched) + old(self)@.input.keys_up
            }),
            final(self)@.quit == old(self)@.quit,
            final(self)@.input.keys_held == old(self)@.input.keys_held,
            final(self)@.input.snapshot_keys_down.len() == 0,
            final(self)@.input.snapshot_keys_up.len() == 0,
            final(self)@.input.snapshot_keys_held.len() == 0,
            final(self)@.timer == old(self)@.timer,
    {
        self.event_dispatch_begin();
        let matched = self.event_handler.pending_engine_events_matching(&event_kind);
        let ghost all = matched@;
        let mut i: usize = 0;
        while i < matched.len()
            invariant
                0 <= i <= all.len(),
                matched@ == all,
                self@.input.keys_down == down_keys_of(all.take(i as int)),
                self@.input.keys_up == up_keys_of(all.take(i as int)),
                self@.input.keys_held.len() == 0,
                self@.input.snapshot_keys_down == old(self)@.input.keys_down,
                self@.input.snapshot_keys_up == old(self)@.input.keys_up,
                self@.input.snapshot_keys_held == old(self)@.input.keys_held,
                self@.handler == old(self)@.handler,
                self@.timer == old(self)@.timer,
                self@.quit == old(self)@.quit,
            decreases all.len() - i,
        {
            let e = matched[i];
            proof {
                assert(all.take(i + 1) == all.take(i as int).push(all[i as int]));
                assert(all.take(i as int).push(all[i as int]).drop_last() == all.take(i as int));
            }
            match e {
                EngineEvent::KeyDown(Some(key)) => {
                    self.input_manager.key_down(key);
                    proof {
                        assert(self@.input.keys_down =~= down_keys_of(all.take(i + 1)));
                        assert(self@.input.keys_up =~= up_keys_of(all.take(i + 1)));
                    }
                },
                EngineEvent::KeyUp(Some(key)) => {
                    self.input_manager.key_up(key);
                    proof {
                        assert(self@.input.keys_down =~= down_keys_of(all.take(i + 1)));
                        assert(self@.input.keys_up =~= up_keys_of(all.take(i + 1)));
                    }
                },
                _ => {
                    proof {
                        assert(self@.input.keys_down =~= down_keys_of(all.take(i + 1)));
                        assert(self@.input.keys_up =~= up_keys_of(all.take(i + 1)));
                    }
                },
            }
            i = i + 1;
        }
        proof {
            assert(all.take(all.len() as int) == all);
        }
        let result = self.event_handler.fire_engine_event(event_kind);
        self.event_dispatch_end();
        result
    }

    /// One full user-event dispatch pass inside an input bracket: every
    /// queued user event is handed to every registered receiver, in LIFO
    /// order over events.
    pub fn fire_events(&mut self) -> (r: V39Result<()>)
        ensures
            r is Ok,
            fire_events_rel(old(self)@.handler, final(self)@.handler),
            final(self)@.quit == old(self)@.quit,
            final(self)@.input.keys_down == old(self)@.input.keys_down,
            final(self)@.input.keys_up == old(self)@.input.keys_up,
            final(self)@.input.keys_held == old(self)@.input.keys_held,
            final(self)@.input.snapshot_keys_down.len() == 0,
            final(self)@.input.snapshot_keys_up.len() == 0,
            final(self)@.input.snapshot_keys_held.len() == 0,
            final(self)@.timer == old(self)@.timer,
    {
        self.event_dispatch_begin();
        let result = self.event_handler.fire_events();
        self.event_dispatch_end();
        proof {
            assert(final(self)@.input.keys_down =~= old(self)@.input.keys_down);
            assert(final(self)@.input.keys_up =~= old(self)@.input.keys_up);
            assert(final(self)@.input.keys_held =~= old(self)@.input.keys_held);
        }
        result
    }

    /// How long the caller must sleep after the frame's work to hold the
    /// target frame rate.
    pub fn pad_frame_time(&self, now_ms: u64) -> (r: Option<u64>)
        ensures
            r == (match self@.timer.target_frame_time {
                Some(target) => {
                    let elapsed = if now_ms >= self@.timer.frame_tracker.spec_begin() {
                        (now_ms - self@.timer.frame_tracker.spec_begin()) as u64
                    } else {
                        0u64
                    };
                    if elapsed < target {
                        Some((target - elapsed) as u64)
                    } else {
                        None
                    }
                },
                None => None,
            }),
    {
        self.timer.pad_frame_time(now_ms)
    }

    /// Sets or clears the target frame rate.
    pub fn set_target_fps(&mut self, target: Option<u64>)
        requires
            target matches Some(fps) ==> fps > 0,
        ensures
            final(self)@.timer.target_frame_time == (match target {
                Some(fps) => Some((1000u64 / fps) as u64),
                None => None,
            }),
            final(self)@.timer.frame_tracker == old(self)@.timer.frame_tracker,
            final(self)@.timer.delta == old(self)@.timer.delta,
            final(self)@.handler == old(self)@.handler,
            final(self)@.input == old(self)@.input,
            final(self)@.quit == old(self)@.quit,
    {
        self.timer.set_target_fps(target);
    }

    /// One iteration of the main loop, at clock reading `now_ms`: claim the
    /// queued key events, begin the frame (key-state transition, timer
    /// restart), tick with the last frame's delta, claim queued window-close
    /// events, drain the user events, and end the frame.  The caller then
    /// pads the frame time and pumps the window system.
    pub fn frame(&mut self, now_ms: u64) -> (r: V39Result<()>)
        ensures
            r is Ok,
            frame_passes_rel(
                old(self)@.handler,
                final(self)@.handler,
                final(self)@.timer.delta,
            ),
            final(self)@.handler.locked_events.len() == 0,
            final(self)@.handler.locked_engine_events.len() == 0,
            final(self)@.handler.locked_receivers.len() == 0,
            old(self)@.handler.quit_requested ==> final(self)@.handler.quit_requested,
            final(self)@.quit == old(self)@.quit,
            final(self)@.timer.frame_tracker.spec_begin() == now_ms,
            final(self)@.timer.frame_tracker.spec_end() is None,
            final(self)@.timer.target_frame_time == old(self)@.timer.target_frame_time,
            final(self)@.timer.delta == (match old(self)@.timer.frame_tracker.spec_end() {
                Some(e) => if e >= old(self)@.timer.frame_tracker.spec_begin() {
                    (e - old(self)@.timer.frame_tracker.spec_begin()) as u64
                } else {
                    0u64
                },
                None => if now_ms >= old(self)@.timer.frame_tracker.spec_begin() {
                    (now_ms - old(self)@.timer.frame_tracker.spec_begin()) as u64
                } else {
                    0u64
                },
            }),
            final(self)@.input.snapshot_keys_down.len() == 0,
            final(self)@.input.snapshot_keys_up.len() == 0,
            final(self)@.input.snapshot_keys_held.len() == 0,
    {
        let _ = self.fire_engine_event(EngineEvent::KeyDown(None));
        let ghost v1 = self@.handler;
        let _ = self.fire_engine_event(EngineEvent::KeyUp(None));
        let ghost v2 = self@.handler;
        let _ = self.fire_single_engine_event(EngineEvent::FrameBegin, now_ms);
        let ghost v3 = self@.handler;
        let delta = self.timer.delta_time();
        let _ = self.fire_single_engine_event(EngineEvent::Tick(Some(delta)), now_ms);
        let ghost v4 = self@.handler;
        let _ = self.fire_engine_event(EngineEvent::WindowClose);
        let ghost v5 = self@.handler;
        let _ = self.fire_events();
        let ghost v6 = self@.handler;
        let _ = self.fire_single_engine_event(EngineEvent::FrameEnd, now_ms);
        proof {
            lemma_frame_passes_intro(
                old(self)@.handler,
                v1,
                v2,
                v3,
                v4,
                v5,
                v6,
                self@.handler,
                delta,
            );
        }
        Ok(())
    }
}

} // verus!
