//! The audio side: the click hand-off cell, the sound engine and its renderer.

pub mod render;
pub mod sound;
pub mod synth;
pub mod trigger;

pub use render::{render, render_int16, render_uint16};
pub use sound::{
    DeviceConfig, EngineError, Playback, SampleFormat, SampleKind, SoundEngine, SoundEvent,
    StreamFormat,
};
pub use trigger::{ClickTrigger, TriggerSlot, AUDIBLE_WINDOW};
