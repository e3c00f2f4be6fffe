//! The settings shared between the menu, the key listener and the renderer.
//!
//! Levels and synthesis parameters are kept in thousandths, so that `1000`
//! stands for `1.0`: a volume of `750` is three quarters of full scale, a
//! frequency of `500_000` is 500 Hz, a decay of `30_000` is 30 per second.

use vstd::prelude::*;
use vstd::string::StringExecFns;

verus! {

/// How many thousandths make one.
pub const SCALE: u32 = 1000;

/// The tone a click has until a configuration says otherwise: 500 Hz.
pub const DEFAULT_FREQUENCY: u32 = 500_000;

/// The decay rate a click has until a configuration says otherwise: 30 per second.
pub const DEFAULT_DECAY: u32 = 30_000;

/// The settings the user controls.
#[derive(Debug, PartialEq, Eq)]
pub struct Config {
    /// Whether key edges make any sound at all.
    pub enabled: bool,
    /// Output level in thousandths of full scale.
    pub volume: u32,
    /// The folder name of the selected switch sound set.
    pub switch_type: String,
    /// Fundamental of the synthesized click, in thousandths of a hertz.
    pub frequency: u32,
    /// Decay rate of the synthesized click, in thousandths per second.
    pub decay: u32,
}

/// The part of the settings the audio side works from, copied out so that no
/// lock is held while it is used.
#[derive(Clone, Copy, Debug, PartialEq, Eq, Structural)]
pub struct ConfigSnapshot {
    pub enabled: bool,
    pub volume: u32,
    pub frequency: u32,
    pub decay: u32,
}

/// The settings as plain values.
pub struct ConfigView {
    pub enabled: bool,
    pub volume: u32,
    pub switch_type: Seq<char>,
    pub frequency: u32,
    pub decay: u32,
}

impl View for Config {
    type V = ConfigView;

    open spec fn view(&self) -> ConfigView {
        ConfigView {
            enabled: self.enabled,
            volume: self.volume,
            switch_type: self.switch_type@,
            frequency: self.frequency,
            decay: self.decay,
        }
    }
}

impl Clone for Config {
    fn clone(&self) -> (copy: Self)
        ensures
            copy@ == self@,
    {
        Config {
            enabled: self.enabled,
            volume: self.volume,
            switch_type: self.switch_type.clone(),
            frequency: self.frequency,
            decay: self.decay,
        }
    }
}

impl Default for Config {
    /// Sound on, full volume, the `mxblue` sound set and the default tone.
    fn default() -> (config: Self)
        ensures
            config.enabled,
            config.volume == SCALE,
            config.switch_type@ == "mxblue"@,
            config.frequency == DEFAULT_FREQUENCY,
            config.decay == DEFAULT_DECAY,
    {
        Config {
            enabled: true,
            volume: SCALE,
            switch_type: String::from_str("mxblue"),
            frequency: DEFAULT_FREQUENCY,
            decay: DEFAULT_DECAY,
        }
    }
}

impl Config {
    /// What `read` copies out of the settings.
    pub open spec fn snapshot(&self) -> ConfigSnapshot {
        ConfigSnapshot {
            enabled: self.enabled,
            volume: self.volume,
            frequency: self.frequency,
            decay: self.decay,
        }
    }

    /// Copies out the values the audio side needs.
    pub fn read(&self) -> (snapshot: ConfigSnapshot)
        ensures
            snapshot == self.snapshot(),
    {
        ConfigSnapshot {
            enabled: self.enabled,
            volume: self.volume,
            frequency: self.frequency,
            decay: self.decay,
        }
    }
}

} // verus!
