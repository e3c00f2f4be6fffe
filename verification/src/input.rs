//! Key events and the edge detection that suppresses auto-repeat.

pub mod key;
pub mod keyboard;

pub use key::Key;
pub use keyboard::{Edge, EventType, KeyDedupTracker, KeyEvent, KeyboardHandler};
