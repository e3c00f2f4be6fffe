//! The sound engine: which sound a key makes, and the hand-over of clicks to
//! the audio side.

use crate::audio::trigger::{take_active_spec, ClickTrigger, TriggerSlot};
use crate::config::Config;
use crate::input::key::Key;
use crate::paths::{get_switchtypes_dir, join, join_spec, switchtypes_dir_spec};
use vstd::prelude::*;
use vstd::string::StringExecFns;

verus! {

/// One key edge that is to be heard, with the settings in force when it
/// happened.
#[derive(Debug, PartialEq, Eq)]
pub struct SoundEvent {
    /// The key that moved; `None` for a sound that no key caused.
    pub key: Option<Key>,
    pub is_press: bool,
    /// Output level in thousandths of full scale.
    pub volume: u32,
    /// The folder name of the sound set to play from.
    pub switch_type: String,
}

/// A sound event as plain values.
pub struct SoundEventView {
    pub key: Option<Key>,
    pub is_press: bool,
    pub volume: u32,
    pub switch_type: Seq<char>,
}

impl View for SoundEvent {
    type V = SoundEventView;

    open spec fn view(&self) -> SoundEventView {
        SoundEventView {
            key: self.key,
            is_press: self.is_press,
            volume: self.volume,
            switch_type: self.switch_type@,
        }
    }
}

/// The recording to play for a sound event, and the level to play it at.
#[derive(Debug, PartialEq, Eq)]
pub struct Playback {
    /// The path of the recording.
    pub path: String,
    /// Output level in thousandths of full scale.
    pub volume: u32,
}

/// A playback request as plain values.
pub struct PlaybackView {
    pub path: Seq<char>,
    pub volume: u32,
}

impl View for Playback {
    type V = PlaybackView;

    open spec fn view(&self) -> PlaybackView {
        PlaybackView { path: self.path@, volume: self.volume }
    }
}

/// A sample representation a device may offer.
#[derive(Clone, Copy, Debug, PartialEq, Eq, Structural)]
pub enum SampleFormat {
    F32,
    I16,
    U16,
    /// Any representation the engine has no renderer for.
    Other,
}

/// A sample representation the engine can render.
#[derive(Clone, Copy, Debug, PartialEq, Eq, Structural)]
pub enum SampleKind {
    Float32,
    Int16,
    Uint16,
}

/// What the default output device offers.
#[derive(Clone, Copy, Debug, PartialEq, Eq, Structural)]
pub struct DeviceConfig {
    /// Frames per second.
    pub sample_rate: u32,
    pub channels: u16,
    pub sample_format: SampleFormat,
}

/// The format the output stream was opened with.
#[derive(Clone, Copy, Debug, PartialEq, Eq, Structural)]
pub struct StreamFormat {
    /// Frames per second; never zero.
    pub sample_rate: u32,
    pub channels: u16,
    pub kind: SampleKind,
}

/// Why the engine could not start.
#[derive(Clone, Copy, Debug, PartialEq, Eq, Structural)]
pub enum EngineError {
    /// There is no output device.
    DeviceUnavailable,
    /// The device offers no format the engine can render.
    UnsupportedFormat,
}

/// The renderable kind behind a device's sample representation, if any.
pub open spec fn supported_kind(format: SampleFormat) -> Option<SampleKind> {
    match format {
        SampleFormat::F32 => Some(SampleKind::Float32),
        SampleFormat::I16 => Some(SampleKind::Int16),
        SampleFormat::U16 => Some(SampleKind::Uint16),
        SampleFormat::Other => None,
    }
}

/// The stream format the engine opens on a device, if it can open one: the
/// device's own rate and channel count, provided the sample representation
/// is renderable and the rate is not zero.
pub open spec fn negotiated_format(device: DeviceConfig) -> Option<StreamFormat> {
    match supported_kind(device.sample_format) {
        Some(kind) if device.sample_rate > 0 => Some(
            StreamFormat { sample_rate: device.sample_rate, channels: device.channels, kind },
        ),
        _ => None,
    }
}

/// The sound engine: the format of the open output stream and the slot that
/// carries the pending click to the renderer.
#[derive(Debug)]
pub struct SoundEngine {
    pub(crate) format: StreamFormat,
    pub(crate) slot: TriggerSlot,
}

/// A sound engine as plain values.
pub struct SoundEngineView {
    pub format: StreamFormat,
    pub pending: Option<ClickTrigger>,
}

impl View for SoundEngine {
    type V = SoundEngineView;

    closed spec fn view(&self) -> SoundEngineView {
        SoundEngineView { format: self.format, pending: self.slot@ }
    }
}

impl SoundEngine {
    #[verifier::type_invariant]
    pub(crate) closed spec fn well_formed(self) -> bool {
        self.format.sample_rate > 0
    }

    /// Starts the engine on what the default output device offers; `None`
    /// stands for a machine without an output device.
    ///
    /// Fails with `DeviceUnavailable` when there is no device, and with
    /// `UnsupportedFormat` when the device's sample representation is not
    /// renderable or its sample rate is zero. A started engine has nothing
    /// pending.
    pub fn new(device: Option<DeviceConfig>) -> (engine: Result<Self, EngineError>)
        ensures
            match device {
                None => engine == Err::<Self, EngineError>(EngineError::DeviceUnavailable),
                Some(device) => match negotiated_format(device) {
                    None => engine == Err::<Self, EngineError>(EngineError::UnsupportedFormat),
                    Some(format) => engine is Ok && engine->Ok_0@ == (SoundEngineView {
                        format,
                        pending: None,
                    }),
                },
            },
    {
        let device = match device {
            Some(device) => device,
            None => {
                return Err(EngineError::DeviceUnavailable);
            },
        };
        let kind = match device.sample_format {
            SampleFormat::F32 => SampleKind::Float32,
            SampleFormat::I16 => SampleKind::Int16,
            SampleFormat::U16 => SampleKind::Uint16,
            SampleFormat::Other => {
                return Err(EngineError::UnsupportedFormat);
            },
        };
        if device.sample_rate == 0 {
            return Err(EngineError::UnsupportedFormat);
        }
        Ok(
            SoundEngine {
                format: StreamFormat {
                    sample_rate: device.sample_rate,
                    channels: device.channels,
                    kind,
                },
                slot: TriggerSlot::new(),
            },
        )
    }

    /// The format the output stream was opened with.
    pub fn format(&self) -> (format: StreamFormat)
        ensures
            format == self@.format,
            format.sample_rate > 0,
    {
        proof {
            use_type_invariant(self);
        }
        self.format
    }

    /// The click that is waiting for the renderer, if any.
    pub fn pending(&self) -> (pending: Option<ClickTrigger>)
        ensures
            pending == self@.pending,
    {
        self.slot.pending()
    }

    /// Hands out the pending click if it is still audible at `now`, and
    /// drops it from the slot if it has run out.
    pub fn take_active(&mut self, now: u64) -> (active: Option<ClickTrigger>)
        ensures
            final(self)@.format == old(self)@.format,
            (final(self)@.pending, active) == take_active_spec(old(self)@.pending, now),
    {
        proof {
            use_type_invariant(&*self);
        }
        let mut slot = self.slot;
        let active = slot.take_active(now);
        self.slot = slot;
        active
    }

    /// Drops the pending click, if any.
    pub fn retire(&mut self)
        ensures
            final(self)@.format == old(self)@.format,
            final(self)@.pending.is_none(),
    {
        proof {
            use_type_invariant(&*self);
        }
        self.slot = TriggerSlot::new();
    }

    /// Makes a key edge heard, unless sound is switched off.
    ///
    /// With sound on, the click is published at `now` with the tone and level
    /// of `config`, replacing any click still pending, and the event is
    /// returned for a player that works from recordings. With sound off,
    /// nothing is published and nothing returned.
    pub fn play_sound(
        &mut self,
        config: &Config,
        key: Option<Key>,
        is_press: bool,
        now: u64,
    ) -> (event: Option<SoundEvent>)
        ensures
            final(self)@.format == old(self)@.format,
            config.enabled ==> event is Some && event->Some_0@ == event_for(*config, key, is_press)
                && final(self)@.pending == Some(click_at(*config, now)),
            !config.enabled ==> event is None && final(self)@.pending == old(self)@.pending,
    {
        proof {
            use_type_invariant(&*self);
        }
        if !config.enabled {
            return None;
        }
        let mut slot = self.slot;
        slot.publish(
            ClickTrigger {
                start_timestamp: now,
                frequency: config.frequency,
                decay: config.decay,
                volume: config.volume,
            },
        );
        self.slot = slot;
        Some(
            SoundEvent {
                key,
                is_press,
                volume: config.volume,
                switch_type: config.switch_type.clone(),
            },
        )
    }

    /// Publishes a click that no key caused, whether or not sound is switched
    /// on, and reports that it was handed over.
    pub fn play_test_sound(&mut self, config: &Config, now: u64) -> (sent: bool)
        ensures
            sent,
            final(self)@.format == old(self)@.format,
            final(self)@.pending == Some(click_at(*config, now)),
    {
        proof {
            use_type_invariant(&*self);
        }
        let mut slot = self.slot;
        slot.publish(
            ClickTrigger {
                start_timestamp: now,
                frequency: config.frequency,
                decay: config.decay,
                volume: config.volume,
            },
        );
        self.slot = slot;
        true
    }
}

/// The keyboard row a key sounds like, counted from the number row down.
/// Keys outside the five main rows sound like the home row.
pub open spec fn sound_row(key: Key) -> nat {
    match key {
        Key::Num1 | Key::Num2 | Key::Num3 | Key::Num4 | Key::Num5 | Key::Num6 | Key::Num7
        | Key::Num8 | Key::Num9 | Key::Num0 | Key::Minus | Key::Equal => 0,
        Key::KeyQ | Key::KeyW | Key::KeyE | Key::KeyR | Key::KeyT | Key::KeyY | Key::KeyU
        | Key::KeyI | Key::KeyO | Key::KeyP | Key::LeftBracket | Key::RightBracket => 1,
        Key::KeyA | Key::KeyS | Key::KeyD | Key::KeyF | Key::KeyG | Key::KeyH | Key::KeyJ
        | Key::KeyK | Key::KeyL | Key::SemiColon | Key::Quote | Key::BackSlash => 2,
        Key::KeyZ | Key::KeyX | Key::KeyC | Key::KeyV | Key::KeyB | Key::KeyN | Key::KeyM
        | Key::Comma | Key::Dot | Key::Slash => 3,
        Key::Space | Key::Alt | Key::MetaLeft | Key::MetaRight | Key::ControlLeft
        | Key::ControlRight | Key::ShiftLeft | Key::ShiftRight => 4,
        _ => 2,
    }
}

/// The name of the recording for a keyboard row.
pub open spec fn row_sound_name(row: nat) -> Seq<char> {
    if row == 0 {
        "GENERIC_R0"@
    } else if row == 1 {
        "GENERIC_R1"@
    } else if row == 3 {
        "GENERIC_R3"@
    } else if row == 4 {
        "GENERIC_R4"@
    } else {
        "GENERIC_R2"@
    }
}

/// The file a sound event plays: a press sounds like the row its key is in,
/// every release sounds the same, and a press that no key caused sounds like
/// the home row.
pub open spec fn sound_file_spec(key: Option<Key>, is_press: bool) -> Seq<char> {
    match (key, is_press) {
        (Some(key), true) => "press/"@ + row_sound_name(sound_row(key)) + ".mp3"@,
        (Some(_), false) => "release/GENERIC.mp3"@,
        (None, _) => "press/GENERIC_R2.mp3"@,
    }
}

/// The click that a key edge publishes at `now` under the given settings.
pub open spec fn click_at(config: Config, now: u64) -> ClickTrigger {
    ClickTrigger {
        start_timestamp: now,
        frequency: config.frequency,
        decay: config.decay,
        volume: config.volume,
    }
}

/// The sound event that a key edge makes under the given settings.
pub open spec fn event_for(config: Config, key: Option<Key>, is_press: bool) -> SoundEventView {
    SoundEventView { key, is_press, volume: config.volume, switch_type: config.switch_type@ }
}

/// The path of the recording for a sound event: the file for the event,
/// below the folder of the event's sound set, below the folder of all sound
/// sets.
pub open spec fn sound_path_spec(event: SoundEventView, config_dir: Option<Seq<char>>) -> Seq<
    char,
> {
    join_spec(
        join_spec(switchtypes_dir_spec(config_dir), event.switch_type),
        sound_file_spec(event.key, event.is_press),
    )
}

impl SoundEngine {
    /// The name of the recording for the row `key` is in.
    pub fn get_sound_number_for_key(key: &Key) -> (name: String)
        ensures
            name@ == row_sound_name(sound_row(*key)),
    {
        let name = match key {
            Key::Num1 | Key::Num2 | Key::Num3 | Key::Num4 | Key::Num5 | Key::Num6 | Key::Num7
            | Key::Num8 | Key::Num9 | Key::Num0 | Key::Minus | Key::Equal => "GENERIC_R0",
            Key::KeyQ | Key::KeyW | Key::KeyE | Key::KeyR | Key::KeyT | Key::KeyY | Key::KeyU
            | Key::KeyI | Key::KeyO | Key::KeyP | Key::LeftBracket | Key::RightBracket => "GENERIC_R1",
            Key::KeyA | Key::KeyS | Key::KeyD | Key::KeyF | Key::KeyG | Key::KeyH | Key::KeyJ
            | Key::KeyK | Key::KeyL | Key::SemiColon | Key::Quote | Key::BackSlash => "GENERIC_R2",
            Key::KeyZ | Key::KeyX | Key::KeyC | Key::KeyV | Key::KeyB | Key::KeyN | Key::KeyM
            | Key::Comma | Key::Dot | Key::Slash => "GENERIC_R3",
            Key::Space | Key::Alt | Key::MetaLeft | Key::MetaRight | Key::ControlLeft
            | Key::ControlRight | Key::ShiftLeft | Key::ShiftRight => "GENERIC_R4",
            _ => "GENERIC_R2",
        };
        String::from_str(name)
    }

    /// Picks the recording for a sound event.
    ///
    /// `config_dir` is the platform's settings folder, if it names one. Opening
    /// and playing the file is the caller's part.
    pub fn handle_sound_event(event: SoundEvent, config_dir: Option<&str>) -> (playback: Playback)
        ensures
            playback@ == (PlaybackView {
                path: sound_path_spec(
                    event@,
                    match config_dir {
                        Some(dir) => Some(dir@),
                        None => None,
                    },
                ),
                volume: event.volume,
            }),
    {
        let sound_file = match (&event.key, event.is_press) {
            (Some(key), true) => {
                let name = Self::get_sound_number_for_key(key);
                String::from_str("press/").concat(name.as_str()).concat(".mp3")
            },
            (Some(_), false) => String::from_str("release/GENERIC.mp3"),
            (None, _) => String::from_str("press/GENERIC_R2.mp3"),
        };
        let switchtypes = get_switchtypes_dir(config_dir);
        let sound_set = join(switchtypes.as_str(), event.switch_type.as_str());
        let path = join(sound_set.as_str(), sound_file.as_str());
        Playback { path, volume: event.volume }
    }
}

} // verus!
