//! Events and the receiver interface.
//!
//! An engine event is a built-in lifecycle signal; a user event is an
//! application-defined id plus a sequence of tagged values.  Receivers
//! implement [`EventReceiver`]; every callback is optional (the default does
//! nothing) and returns the actions the receiver wants the engine to take —
//! events to queue, receivers to add, a quit request — which the dispatcher
//! applies to the pending queues after the callback returns.

use vstd::prelude::*;

use crate::error::V39Result;
use crate::input::V39Key;

verus! {

/// One tagged value inside a user event.  The two floating-point shapes carry
/// the IEEE-754 bit pattern of the value, so the payload stays a plain
/// integer; callers convert with `to_bits`/`from_bits` at the boundary.
#[derive(Debug, Clone)]
pub enum EventData {
    Str(String),
    Int(isize),
    Uint(usize),
    /// Bit pattern of a 32-bit float.
    Float(u32),
    /// Bit pattern of a 64-bit float.
    Double(u64),
    Bool(bool),
}

/// An application-defined event: an id owned by the application plus its
/// payload values, in order.
#[derive(Debug, Clone)]
pub struct Event {
    pub id: u32,
    pub data: Vec<EventData>,
}

impl Event {
    pub fn new(id: u32, data: Vec<EventData>) -> (r: Self)
        ensures
            r.id == id,
            r.data == data,
    {
        Event { data, id }
    }
}

/// A built-in lifecycle signal.  Tick payloads are frame deltas in
/// milliseconds; a quit payload is the application's reason code; a resize
/// payload is the new size in pixels.
#[derive(Copy, Clone, Debug, PartialEq, Eq)]
pub enum EngineEvent {
    Reset,
    FrameBegin,
    FrameEnd,
    KeyDown(Option<V39Key>),
    KeyUp(Option<V39Key>),
    Tick(Option<u64>),
    FixedTick(Option<u64>),
    Quit(Option<u32>),
    WindowClose,
    WindowResize(Option<(u32, u32)>),
    WindowFocus,
    WindowUnfocus,
}

impl EngineEvent {
    /// Variant identity: two engine events match if they are the same
    /// variant, payloads ignored.  Routing of queued engine events goes by
    /// this relation alone.
    pub open spec fn spec_var_eq(self, other: Self) -> bool {
        match self {
            EngineEvent::Reset => other is Reset,
            EngineEvent::FrameBegin => other is FrameBegin,
            EngineEvent::FrameEnd => other is FrameEnd,
            EngineEvent::KeyDown(_) => other is KeyDown,
            EngineEvent::KeyUp(_) => other is KeyUp,
            EngineEvent::Tick(_) => other is Tick,
            EngineEvent::FixedTick(_) => other is FixedTick,
            EngineEvent::Quit(_) => other is Quit,
            EngineEvent::WindowClose => other is WindowClose,
            EngineEvent::WindowResize(_) => other is WindowResize,
            EngineEvent::WindowFocus => other is WindowFocus,
            EngineEvent::WindowUnfocus => other is WindowUnfocus,
        }
    }

    pub fn var_eq(&self, other: &Self) -> (r: bool)
        ensures
            r == self.spec_var_eq(*other),
    {
        match self {
            EngineEvent::Reset => matches!(other, EngineEvent::Reset),
            EngineEvent::FrameBegin => matches!(other, EngineEvent::FrameBegin),
            EngineEvent::FrameEnd => matches!(other, EngineEvent::FrameEnd),
            EngineEvent::KeyDown(_) => matches!(other, EngineEvent::KeyDown(_)),
            EngineEvent::KeyUp(_) => matches!(other, EngineEvent::KeyUp(_)),
            EngineEvent::Tick(_) => matches!(other, EngineEvent::Tick(_)),
            EngineEvent::FixedTick(_) => matches!(other, EngineEvent::FixedTick(_)),
            EngineEvent::Quit(_) => matches!(other, EngineEvent::Quit(_)),
            EngineEvent::WindowClose => matches!(other, EngineEvent::WindowClose),
            EngineEvent::WindowResize(_) => matches!(other, EngineEvent::WindowResize(_)),
            EngineEvent::WindowFocus => matches!(other, EngineEvent::WindowFocus),
            EngineEvent::WindowUnfocus => matches!(other, EngineEvent::WindowUnfocus),
        }
    }
}

/// What a receiver callback asks the engine to do.  Actions are applied to
/// the pending queues after the callback returns, so their effect is deferred
/// to the next dispatch pass — queuing from inside a pass never mutates the
/// snapshot being drained.
pub enum EngineAction<R> {
    /// Append a user event to the pending queue.
    QueueEvent(Event),
    /// Append an engine event to the pending queue.
    QueueEngineEvent(EngineEvent),
    /// Register a receiver; it is not visited by the pass that is running.
    AddReceiver(R),
    /// Raise the engine's quit flag.
    Quit,
}

/// The callback interface of the engine.  Every method is optional: the
/// default implementations do nothing and report success, so a partial
/// implementation stays valid.
pub trait EventReceiver: Sized {
    /// Called once per user event per dispatch pass.
    fn dispatch_event(&mut self, event: &Event) -> V39Result<Vec<EngineAction<Self>>> {
        Ok(Vec::new())
    }

    fn reset(&mut self) -> V39Result<Vec<EngineAction<Self>>> {
        Ok(Vec::new())
    }

    fn key_down(&mut self, key: V39Key) -> V39Result<Vec<EngineAction<Self>>> {
        let _ = key;
        Ok(Vec::new())
    }

    fn key_up(&mut self, key: V39Key) -> V39Result<Vec<EngineAction<Self>>> {
        let _ = key;
        Ok(Vec::new())
    }

    fn frame_begin(&mut self) -> V39Result<Vec<EngineAction<Self>>> {
        Ok(Vec::new())
    }

    fn frame_end(&mut self) -> V39Result<Vec<EngineAction<Self>>> {
        Ok(Vec::new())
    }

    /// `delta` is the last frame's duration in milliseconds.
    fn tick(&mut self, delta: u64) -> V39Result<Vec<EngineAction<Self>>> {
        let _ = delta;
        Ok(Vec::new())
    }

    fn quit(&mut self, reason: u32) -> V39Result<Vec<EngineAction<Self>>> {
        let _ = reason;
        Ok(Vec::new())
    }

    fn window_close(&mut self) -> V39Result<Vec<EngineAction<Self>>> {
        Ok(Vec::new())
    }

    fn window_resize(&mut self, size: (u32, u32)) -> V39Result<Vec<EngineAction<Self>>> {
        let _ = size;
        Ok(Vec::new())
    }

    fn window_focus(&mut self) -> V39Result<Vec<EngineAction<Self>>> {
        Ok(Vec::new())
    }

    fn window_unfocus(&mut self) -> V39Result<Vec<EngineAction<Self>>> {
        Ok(Vec::new())
    }
}

} // verus!
