//! v39: a small real-time engine core.
//!
//! The crate models the heart of an embeddable application runtime: an
//! event-dispatch hub with snapshot/apply semantics, an input manager with a
//! double-buffered key-state machine, a frame timer with optional frame
//! pacing, a registry of GPU resource handles, and the per-frame decision
//! logic of the runtime loop.  Window-system integration and the graphics
//! calls themselves live outside the library; the library works on the plain
//! handles and values those layers hand it.

pub mod app;
pub mod error;
pub mod event;
pub mod event_handler;
pub mod ids;
pub mod input;
pub mod model;
pub mod prelude;
pub mod renderer;
pub mod resources;
pub mod timer;
pub mod vector;
