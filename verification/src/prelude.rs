//! Convenient re-exports of the engine's common types.

pub use crate::app::{App, InitProps};
pub use crate::error::{V39Error, V39Result};
pub use crate::event::{EngineAction, EngineEvent, Event, EventData, EventReceiver};
pub use crate::event_handler::{EventHandler, EventHandlerInterface};
pub use crate::ids::{IdGen, ModelId, ShaderId, TextureId};
pub use crate::input::{InputManager, InputManagerInterface, V39Key};
pub use crate::model::Model;
pub use crate::renderer::{Renderer, Vao};
pub use crate::resources::{
    Ebo, Shader, ShaderKind, ShaderSource, Texture, UniformValue, Vbo, VboFormat, VertexAttrib,
};
pub use crate::timer::{Tracker, TimerInterface};
pub use crate::vector::Vector;
