//! Filling an output buffer from the pending click.
//!
//! The renderer is called once per buffer by the audio subsystem and must
//! never wait: whatever it cannot get hold of at once, it answers with
//! silence. The waveform itself is supplied by the caller as `voice`, a
//! function from a click's parameters and the time since its start to one
//! sample; the renderer decides when that function is asked and where its
//! answers go.
//!
//! `render` works for any kind of sample. For the two integer kinds there
//! are `render_int16` and `render_uint16`, which take a voice that gives
//! mixed samples and convert them on the way into the buffer.

use crate::audio::sound::SoundEngine;
use crate::audio::synth::{
    int16_sample, int16_sample_spec, uint16_sample, uint16_sample_spec, INT16_EQUILIBRIUM,
    UINT16_EQUILIBRIUM,
};
use crate::audio::trigger::{take_active_spec, ClickTrigger, AUDIBLE_WINDOW};
use crate::config::ConfigSnapshot;
use vstd::arithmetic::div_mod::lemma_fundamental_div_mod_converse;
use vstd::prelude::*;

verus! {

/// Nanoseconds in a second.
pub const NANOS_PER_SECOND: u64 = 1_000_000_000;

/// The time of frame `frame` of a buffer, in nanoseconds since the click
/// started: the time that had passed when the buffer began, plus `frame`
/// sample periods, rounded down. Times past the end of the clock stay at
/// its last value.
pub open spec fn frame_time_spec(elapsed: u64, frame: int, sample_rate: u32) -> u64 {
    let time = elapsed + frame * NANOS_PER_SECOND / (sample_rate as int);
    if time > u64::MAX {
        u64::MAX
    } else {
        time as u64
    }
}

/// The click a buffer is rendered from, if any.
///
/// `pending` is what the slot holds, or `None` when the engine could not be
/// got hold of; `config` is `None` when the settings could not be read.
/// There is a click to render only if both were available, sound is on, and
/// the pending click is still audible at `now`.
pub open spec fn audible_click(
    pending: Option<Option<ClickTrigger>>,
    config: Option<ConfigSnapshot>,
    now: u64,
) -> Option<ClickTrigger> {
    match (pending, config) {
        (Some(pending), Some(config)) if config.enabled => take_active_spec(pending, now).1,
        _ => None,
    }
}

/// What one buffer leaves in the slot.
///
/// Without the settings, or with sound off, the slot is not looked at. With
/// sound on, a click that has run out by `now` is dropped at once, and a
/// click that was rendered is dropped if it has run out by the end of the
/// buffer.
pub open spec fn pending_after_render(
    pending: Option<ClickTrigger>,
    config: Option<ConfigSnapshot>,
    now: u64,
    frame_count: int,
    sample_rate: u32,
) -> Option<ClickTrigger> {
    match config {
        Some(config) if config.enabled => match take_active_spec(pending, now).1 {
            Some(click) => if frame_time_spec(click.elapsed_at(now), frame_count, sample_rate)
                > AUDIBLE_WINDOW {
                None
            } else {
                pending
            },
            None => None,
        },
        _ => pending,
    }
}

/// Every sample of `buffer` is the equilibrium value.
pub open spec fn is_silent<T>(buffer: Seq<T>, equilibrium: T) -> bool {
    forall|j: int| 0 <= j < buffer.len() ==> #[trigger] buffer[j] == equilibrium
}

/// `buffer` holds `click` as `voice` renders it: every sample is a value
/// that `voice` gives for the click at the time of the sample's frame, and
/// all samples of one frame are the same value.
pub open spec fn is_click<T, F: Fn(u32, u32, u32, u64) -> T>(
    buffer: Seq<T>,
    channels: int,
    click: ClickTrigger,
    elapsed: u64,
    sample_rate: u32,
    voice: F,
) -> bool {
    forall|j: int|
        0 <= j < buffer.len() ==> {
            &&& call_ensures(
                voice,
                (
                    click.frequency,
                    click.decay,
                    click.volume,
                    frame_time_spec(elapsed, j / channels, sample_rate),
                ),
                #[trigger] buffer[j],
            )
            &&& buffer[j] == buffer[(j / channels) * channels]
        }
}

/// Once sound is off, the next buffer is silent whatever click is pending,
/// and the pending click is left alone.
pub proof fn law_disabled_buffer_is_silent(
    pending: Option<ClickTrigger>,
    config: ConfigSnapshot,
    now: u64,
    frame_count: int,
    sample_rate: u32,
)
    requires
        !config.enabled,
    ensures
        audible_click(Some(pending), Some(config), now).is_none(),
        pending_after_render(pending, Some(config), now, frame_count, sample_rate) == pending,
{
}

/// A click is rendered only while it is audible: whatever the settings, a
/// buffer that begins more than the audible window after the click started
/// is silent, and with sound on the click is gone from the slot afterwards.
pub proof fn law_expired_click_is_silent(
    click: ClickTrigger,
    config: Option<ConfigSnapshot>,
    now: u64,
    frame_count: int,
    sample_rate: u32,
)
    requires
        now - click.start_timestamp > AUDIBLE_WINDOW,
    ensures
        audible_click(Some(Some(click)), config, now).is_none(),
        config matches Some(settings) && settings.enabled ==> pending_after_render(
            Some(click),
            config,
            now,
            frame_count,
            sample_rate,
        ).is_none(),
{
}

/// Computes the time of one frame of a buffer.
pub fn frame_time(elapsed: u64, frame: usize, sample_rate: u32) -> (time: u64)
    requires
        sample_rate > 0,
    ensures
        time == frame_time_spec(elapsed, frame as int, sample_rate),
{
    let offset: u128 = (frame as u128) * (NANOS_PER_SECOND as u128) / (sample_rate as u128);
    let time: u128 = elapsed as u128 + offset;
    if time > u64::MAX as u128 {
        u64::MAX
    } else {
        time as u64
    }
}

/// Overwrites the whole buffer with the equilibrium value.
pub fn fill_silence<T: Copy>(buffer: &mut [T], equilibrium: T)
    ensures
        final(buffer)@.len() == old(buffer)@.len(),
        is_silent(final(buffer)@, equilibrium),
{
    let len = buffer.len();
    let mut index: usize = 0;
    while index < len
        invariant
            len == buffer@.len(),
            index <= len,
            forall|j: int| 0 <= j < index ==> #[trigger] buffer@[j] == equilibrium,
        decreases len - index,
    {
        buffer[index] = equilibrium;
        index += 1;
    }
}

/// Overwrites the whole buffer with `click`, asking `voice` once per frame
/// and writing its answer to every channel of that frame.
pub fn fill_click<T: Copy, F: Fn(u32, u32, u32, u64) -> T>(
    buffer: &mut [T],
    frame_count: usize,
    channels: usize,
    click: ClickTrigger,
    elapsed: u64,
    sample_rate: u32,
    voice: &F,
)
    requires
        old(buffer)@.len() == frame_count * channels,
        sample_rate > 0,
        forall|frequency: u32, decay: u32, volume: u32, time: u64|
            call_requires(*voice, (frequency, decay, volume, time)),
    ensures
        final(buffer)@.len() == old(buffer)@.len(),
        is_click(final(buffer)@, channels as int, click, elapsed, sample_rate, *voice),
{
    if channels == 0 {
        // An empty buffer: there is no sample to ask the voice for.
        return ;
    }
    let mut frame: usize = 0;
    let mut index: usize = 0;
    while frame < frame_count
        invariant
            buffer@.len() == frame_count * channels,
            sample_rate > 0,
            forall|frequency: u32, decay: u32, volume: u32, time: u64|
                call_requires(*voice, (frequency, decay, volume, time)),
            frame <= frame_count,
            index == frame * channels,
            is_click(
                buffer@.subrange(0, index as int),
                channels as int,
                click,
                elapsed,
                sample_rate,
                *voice,
            ),
        decreases frame_count - frame,
    {
        let time = frame_time(elapsed, frame, sample_rate);
        let sample = voice(click.frequency, click.decay, click.volume, time);
        let ghost frame_start = index as int;
        let ghost before = buffer@;
        let mut channel: usize = 0;
        proof {
            assert((frame + 1) * channels <= frame_count * channels) by (nonlinear_arith)
                requires
                    frame < frame_count,
                    channels >= 0,
            ;
            assert((frame + 1) * channels == frame * channels + channels) by (nonlinear_arith);
        }
        while channel < channels
            invariant
                buffer@.len() == frame_count * channels,
                frame < frame_count,
                frame_start == frame * channels,
                frame_start + channels <= buffer@.len(),
                channel <= channels,
                index == frame_start + channel,
                buffer@.subrange(0, frame_start) == before.subrange(0, frame_start),
                forall|k: int| frame_start <= k < index ==> #[trigger] buffer@[k] == sample,
            decreases channels - channel,
        {
            buffer[index] = sample;
            index += 1;
            channel += 1;
        }
        proof {
            let filled = buffer@.subrange(0, index as int);
            let earlier = before.subrange(0, frame_start);
            assert forall|j: int| 0 <= j < filled.len() implies {
                &&& call_ensures(
                    *voice,
                    (
                        click.frequency,
                        click.decay,
                        click.volume,
                        frame_time_spec(elapsed, j / (channels as int), sample_rate),
                    ),
                    #[trigger] filled[j],
                )
                &&& filled[j] == filled[(j / (channels as int)) * channels]
            } by {
                if j < frame_start {
                    lemma_frame_of_index(j, channels as int, frame as int);
                } else {
                    lemma_fundamental_div_mod_converse(
                        j,
                        channels as int,
                        frame as int,
                        j - frame_start,
                    );
                }
            }
        }
        frame += 1;
    }
    assert(buffer@.subrange(0, index as int) =~= buffer@);
}

/// An index below the start of frame `frames` lies in an earlier frame, and
/// that frame starts at or before it.
proof fn lemma_frame_of_index(index: int, channels: int, frames: int)
    requires
        0 <= index < frames * channels,
        0 < channels,
    ensures
        0 <= index / channels < frames,
        0 <= (index / channels) * channels <= index,
{
    let frame = index / channels;
    assert(frame < frames) by (nonlinear_arith)
        requires
            frame * channels <= index,
            index < frames * channels,
            0 < channels,
    ;
}

impl SoundEngine {
    /// Fills one output buffer from an engine the caller has hold of.
    ///
    /// The buffer holds `frame_count` frames of `channels` interleaved
    /// samples and is overwritten completely: with the equilibrium value, if
    /// the settings are missing, if sound is off, or if no click is pending
    /// that is still audible at `now`; otherwise with the pending click.
    ///
    /// With sound on, a click that has run out is dropped from the slot, at
    /// `now` or at the end of this buffer, so that the next buffer is silent.
    pub fn render_buffer<T: Copy, F: Fn(u32, u32, u32, u64) -> T>(
        &mut self,
        buffer: &mut [T],
        frame_count: usize,
        channels: usize,
        equilibrium: T,
        config: Option<ConfigSnapshot>,
        now: u64,
        voice: &F,
    )
        requires
            old(buffer)@.len() == frame_count * channels,
            forall|frequency: u32, decay: u32, volume: u32, time: u64|
                call_requires(*voice, (frequency, decay, volume, time)),
        ensures
            final(buffer)@.len() == old(buffer)@.len(),
            final(self)@.format == old(self)@.format,
            final(self)@.pending == pending_after_render(
                old(self)@.pending,
                config,
                now,
                frame_count as int,
                old(self)@.format.sample_rate,
            ),
            match audible_click(Some(old(self)@.pending), config, now) {
                None => is_silent(final(buffer)@, equilibrium),
                Some(click) => is_click(
                    final(buffer)@,
                    channels as int,
                    click,
                    click.elapsed_at(now),
                    old(self)@.format.sample_rate,
                    *voice,
                ),
            },
    {
        let enabled = match config {
            Some(config) => config.enabled,
            None => false,
        };
        if !enabled {
            fill_silence(buffer, equilibrium);
            return ;
        }
        let sample_rate = self.format().sample_rate;
        match self.take_active(now) {
            None => {
                fill_silence(buffer, equilibrium);
            },
            Some(click) => {
                let elapsed = click.elapsed(now);
                fill_click(buffer, frame_count, channels, click, elapsed, sample_rate, voice);
                if frame_time(elapsed, frame_count, sample_rate) > AUDIBLE_WINDOW {
                    self.retire();
                }
            },
        }
    }
}

/// `buffer` holds `click` as `voice` mixes it and `convert` turns it into
/// samples: every sample is the conversion of a value that `voice` gives for
/// the click at the time of the sample's frame, and all samples of one frame
/// are the same value.
pub open spec fn is_converted_click<S, F: Fn(u32, u32, u32, u64) -> i64>(
    buffer: Seq<S>,
    channels: int,
    click: ClickTrigger,
    elapsed: u64,
    sample_rate: u32,
    voice: F,
    convert: spec_fn(i64) -> S,
) -> bool {
    forall|j: int|
        0 <= j < buffer.len() ==> {
            &&& #[trigger] buffer[j] == buffer[(j / channels) * channels]
            &&& exists|mixed: i64|
                #[trigger] call_ensures(
                    voice,
                    (
                        click.frequency,
                        click.decay,
                        click.volume,
                        frame_time_spec(elapsed, j / channels, sample_rate),
                    ),
                    mixed,
                ) && buffer[j] == convert(mixed)
        }
}

/// Fills one output buffer of signed 16-bit samples from a voice that gives
/// mixed samples. Silence is `0`, and a click is converted sample by sample
/// as `int16_sample` does. Everything else is as for `render`.
pub fn render_int16<F: Fn(u32, u32, u32, u64) -> i64>(
    engine: Option<&mut SoundEngine>,
    buffer: &mut [i16],
    frame_count: usize,
    channels: usize,
    config: Option<ConfigSnapshot>,
    now: u64,
    voice: F,
)
    requires
        old(buffer)@.len() == frame_count * channels,
        forall|frequency: u32, decay: u32, volume: u32, time: u64|
            call_requires(voice, (frequency, decay, volume, time)),
    ensures
        final(buffer)@.len() == old(buffer)@.len(),
        match engine {
            None => is_silent(final(buffer)@, INT16_EQUILIBRIUM),
            Some(engine) => {
                &&& final(engine)@.format == engine@.format
                &&& final(engine)@.pending == pending_after_render(
                    engine@.pending,
                    config,
                    now,
                    frame_count as int,
                    engine@.format.sample_rate,
                )
                &&& match audible_click(Some(engine@.pending), config, now) {
                    None => is_silent(final(buffer)@, INT16_EQUILIBRIUM),
                    Some(click) => is_converted_click(
                        final(buffer)@,
                        channels as int,
                        click,
                        click.elapsed_at(now),
                        engine@.format.sample_rate,
                        voice,
                        |mixed: i64| int16_sample_spec(mixed) as i16,
                    ),
                }
            },
        },
{
    let mixer = &voice;
    let converted = |frequency: u32, decay: u32, volume: u32, time: u64| -> (sample: i16)
        ensures
            exists|mixed: i64|
                call_ensures(*mixer, (frequency, decay, volume, time), mixed) && sample
                    == int16_sample_spec(mixed),
        { int16_sample(mixer(frequency, decay, volume, time)) };
    render(engine, buffer, frame_count, channels, INT16_EQUILIBRIUM, config, now, converted);
}

/// Fills one output buffer of unsigned 16-bit samples from a voice that
/// gives mixed samples. Silence is the middle of the range, and a click is
/// converted sample by sample as `uint16_sample` does. Everything else is as
/// for `render`.
pub fn render_uint16<F: Fn(u32, u32, u32, u64) -> i64>(
    engine: Option<&mut SoundEngine>,
    buffer: &mut [u16],
    frame_count: usize,
    channels: usize,
    config: Option<ConfigSnapshot>,
    now: u64,
    voice: F,
)
    requires
        old(buffer)@.len() == frame_count * channels,
        forall|frequency: u32, decay: u32, volume: u32, time: u64|
            call_requires(voice, (frequency, decay, volume, time)),
    ensures
        final(buffer)@.len() == old(buffer)@.len(),
        match engine {
            None => is_silent(final(buffer)@, UINT16_EQUILIBRIUM),
            Some(engine) => {
                &&& final(engine)@.format == engine@.format
                &&& final(engine)@.pending == pending_after_render(
                    engine@.pending,
                    config,
                    now,
                    frame_count as int,
                    engine@.format.sample_rate,
                )
                &&& match audible_click(Some(engine@.pending), config, now) {
                    None => is_silent(final(buffer)@, UINT16_EQUILIBRIUM),
                    Some(click) => is_converted_click(
                        final(buffer)@,
                        channels as int,
                        click,
                        click.elapsed_at(now),
                        engine@.format.sample_rate,
                        voice,
                        |mixed: i64| uint16_sample_spec(mixed) as u16,
                    ),
                }
            },
        },
{
    let mixer = &voice;
    let converted = |frequency: u32, decay: u32, volume: u32, time: u64| -> (sample: u16)
        ensures
            exists|mixed: i64|
                call_ensures(*mixer, (frequency, decay, volume, time), mixed) && sample
                    == uint16_sample_spec(mixed),
        { uint16_sample(mixer(frequency, decay, volume, time)) };
    render(engine, buffer, frame_count, channels, UINT16_EQUILIBRIUM, config, now, converted);
}

/// Fills one output buffer.
///
/// `engine` and `config` are `None` when the caller could not get hold of
/// them without waiting. The buffer holds `frame_count` frames of `channels`
/// interleaved samples and is overwritten completely:
///
/// - with the equilibrium value, if the engine or the settings are missing,
///   if sound is off, or if no click is pending that is still audible at
///   `now`;
/// - otherwise with the pending click: frame `i` is rendered at the time
///   that had passed since the click started, plus `i` sample periods, and
///   `voice` is asked once for it.
///
/// With sound on, a click that has run out is dropped from the slot, at
/// `now` or at the end of this buffer, so that the next buffer is silent.
pub fn render<T: Copy, F: Fn(u32, u32, u32, u64) -> T>(
    engine: Option<&mut SoundEngine>,
    buffer: &mut [T],
    frame_count: usize,
    channels: usize,
    equilibrium: T,
    config: Option<ConfigSnapshot>,
    now: u64,
    voice: F,
)
    requires
        old(buffer)@.len() == frame_count * channels,
        forall|frequency: u32, decay: u32, volume: u32, time: u64|
            call_requires(voice, (frequency, decay, volume, time)),
    ensures
        final(buffer)@.len() == old(buffer)@.len(),
        match engine {
            None => is_silent(final(buffer)@, equilibrium),
            Some(engine) => {
                &&& final(engine)@.format == engine@.format
                &&& final(engine)@.pending == pending_after_render(
                    engine@.pending,
                    config,
                    now,
                    frame_count as int,
                    engine@.format.sample_rate,
                )
                &&& match audible_click(Some(engine@.pending), config, now) {
                    None => is_silent(final(buffer)@, equilibrium),
                    Some(click) => is_click(
                        final(buffer)@,
                        channels as int,
                        click,
                        click.elapsed_at(now),
                        engine@.format.sample_rate,
                        voice,
                    ),
                }
            },
        },
{
    match engine {
        Some(running) => {
            running.render_buffer(buffer, frame_count, channels, equilibrium, config, now, &voice);
        },
        None => {
            fill_silence(buffer, equilibrium);
        },
    }
}

} // verus!
