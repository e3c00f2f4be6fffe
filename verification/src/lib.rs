//! Keyboard click sounds.
//!
//! The library turns raw key events into press and release edges, hands each
//! click to the audio side through a single-slot cell, and fills interleaved
//! output buffers from the pending click. Around that core it decides what
//! the program's menu shows and does, which recording a key plays, and how
//! the program is installed and run as a service.
//!
//! Everything here is a function of plain values: clocks, locks, devices,
//! files and processes belong to the caller, who reports what they said.
//! Levels and synthesis parameters are integers in thousandths, points in
//! time are nanoseconds on a clock of the caller's choosing, and paths are
//! strings with `/` between their parts.

pub mod audio;
pub mod config;
pub mod input;
pub mod json;
pub mod paths;
pub mod property_list;
pub mod service;
pub mod text;
pub mod ui;
