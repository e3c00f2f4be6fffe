//! The shape of a click.
//!
//! A click is the sum of four decaying partials: the fundamental, two
//! overtones, and a faint fast component that gives it its clack. Each
//! partial is a sine that dies away exponentially:
//!
//! ```text
//! sample = clamp(volume * (      sin(2 pi f t)     * exp(-t d)
//!                         + 0.5  sin(2 pi 1.5 f t) * exp(-t d 1.2)
//!                         + 0.25 sin(2 pi 2 f t)   * exp(-t d 1.5)
//!                         + 0.1  sin(1000 t)       * exp(-t d 2)), -1, 1)
//! ```
//!
//! Everything in this formula is computed here, in whole numbers, but for
//! the two functions themselves: the sine of an angle and the exponential of
//! an exponent are asked of the caller, who has the arithmetic for them.
//!
//! Levels of single partials are in millionths, mixed samples in
//! million-millionths, so that no rounding happens between the two.

use vstd::prelude::*;

verus! {

/// How many partials a click has.
pub const PARTIAL_COUNT: usize = 4;

/// The level `1.0` of a partial.
pub const LEVEL_ONE: i32 = 1_000_000;

/// The mixed sample `1.0`: full scale.
pub const SAMPLE_ONE: i64 = 1_000_000_000_000;

/// What a partial oscillates at.
#[derive(Clone, Copy, Debug, PartialEq, Eq, Structural)]
pub enum Oscillator {
    /// A multiple of the click's frequency, in thousandths.
    Harmonic(u32),
    /// A fixed angular frequency, in radians per second.
    Fixed(u32),
}

/// One partial of a click.
#[derive(Clone, Copy, Debug, PartialEq, Eq, Structural)]
pub struct Partial {
    pub oscillator: Oscillator,
    /// The share of the partial in the sum, in thousandths.
    pub weight: u32,
    /// How fast the partial dies away, as a multiple of the click's decay
    /// rate, in thousandths.
    pub decay: u32,
}

/// The partials of a click: the fundamental at full weight; an overtone a
/// fifth above at half weight, dying a fifth faster; the octave at a quarter,
/// dying half again as fast; and a fixed component at a tenth, dying twice
/// as fast.
pub open spec fn partial_spec(index: int) -> Partial {
    if index == 0 {
        Partial { oscillator: Oscillator::Harmonic(1000), weight: 1000, decay: 1000 }
    } else if index == 1 {
        Partial { oscillator: Oscillator::Harmonic(1500), weight: 500, decay: 1200 }
    } else if index == 2 {
        Partial { oscillator: Oscillator::Harmonic(2000), weight: 250, decay: 1500 }
    } else {
        Partial { oscillator: Oscillator::Fixed(1000), weight: 100, decay: 2000 }
    }
}

/// The weighted sum of the levels of the four partials.
pub open spec fn weighted_sum(levels: Seq<i32>) -> int {
    partial_spec(0).weight * levels[0] + partial_spec(1).weight * levels[1] + partial_spec(
        2,
    ).weight * levels[2] + partial_spec(3).weight * levels[3]
}

/// The mixed sample before it is kept within full scale.
pub open spec fn scaled_sum(volume: u32, levels: Seq<i32>) -> int {
    volume * weighted_sum(levels)
}

/// The mixed sample: the weighted sum of the partials, scaled by the
/// volume, and kept within full scale.
pub open spec fn mix_spec(volume: u32, levels: Seq<i32>) -> int {
    let scaled = scaled_sum(volume, levels);
    if scaled > SAMPLE_ONE {
        SAMPLE_ONE as int
    } else if scaled < -SAMPLE_ONE {
        -SAMPLE_ONE
    } else {
        scaled
    }
}

/// Scaling by the volume is linear: as long as the louder sample stays
/// within full scale, twice the volume gives twice the sample.
pub proof fn law_volume_scaling_is_linear(volume: u32, levels: Seq<i32>)
    requires
        levels.len() == PARTIAL_COUNT,
        2 * volume <= u32::MAX,
        -SAMPLE_ONE <= scaled_sum((2 * volume) as u32, levels) <= SAMPLE_ONE,
    ensures
        mix_spec((2 * volume) as u32, levels) == 2 * mix_spec(volume, levels),
{
    let sum = weighted_sum(levels);
    assert((2 * volume) * sum == 2 * (volume * sum)) by (nonlinear_arith);
}

/// A mixed sample never leaves full scale.
pub proof fn law_sample_within_full_scale(volume: u32, levels: Seq<i32>)
    ensures
        -SAMPLE_ONE <= mix_spec(volume, levels) <= SAMPLE_ONE,
{
}

/// The weights of the four partials taken together, in thousandths.
pub const TOTAL_WEIGHT: u32 = 1850;

/// A click is no louder than its partials: if every partial lies within
/// `envelope` of silence, the mixed sample lies within the volume times the
/// total weight times `envelope`. As the partials die away, so does the
/// click.
pub proof fn law_sample_bounded_by_envelope(volume: u32, levels: Seq<i32>, envelope: nat)
    requires
        levels.len() == PARTIAL_COUNT,
        forall|k: int| 0 <= k < PARTIAL_COUNT ==> -envelope <= #[trigger] levels[k] <= envelope,
    ensures
        -(volume * (TOTAL_WEIGHT * envelope)) <= mix_spec(volume, levels) <= volume * (TOTAL_WEIGHT
            * envelope),
{
    let sum = weighted_sum(levels);
    let bound = TOTAL_WEIGHT * envelope;
    assert(-(volume * bound) <= volume * sum <= volume * bound) by (nonlinear_arith)
        requires
            -bound <= sum <= bound,
            0 <= volume,
    ;
}

/// Silent partials mix to silence, at any volume.
pub proof fn law_silent_partials_mix_to_silence(volume: u32)
    ensures
        mix_spec(volume, seq![0i32, 0i32, 0i32, 0i32]) == 0,
{
    assert(weighted_sum(seq![0i32, 0i32, 0i32, 0i32]) == 0);
}

/// The largest signed 16-bit sample, which stands for full scale.
pub const INT16_FULL_SCALE: i64 = 32_767;

/// The signed 16-bit sample that stands for silence.
pub const INT16_EQUILIBRIUM: i16 = 0;

/// The unsigned 16-bit sample that stands for silence: the middle of the
/// range.
pub const UINT16_EQUILIBRIUM: u16 = 32_768;

/// `sample` kept within full scale.
pub open spec fn within_full_scale(sample: i64) -> int {
    if sample > SAMPLE_ONE {
        SAMPLE_ONE as int
    } else if sample < -SAMPLE_ONE {
        -SAMPLE_ONE
    } else {
        sample as int
    }
}

/// A mixed sample as a signed 16-bit sample: full scale goes to `32767` and
/// `-32767`, silence to `0`, and what lies between is rounded towards
/// silence.
pub open spec fn int16_sample_spec(sample: i64) -> int {
    let kept = within_full_scale(sample);
    if kept >= 0 {
        kept * INT16_FULL_SCALE / (SAMPLE_ONE as int)
    } else {
        -((-kept) * INT16_FULL_SCALE / (SAMPLE_ONE as int))
    }
}

/// A mixed sample as an unsigned 16-bit sample: the signed sample, moved up
/// so that silence lies in the middle of the range.
pub open spec fn uint16_sample_spec(sample: i64) -> int {
    int16_sample_spec(sample) + UINT16_EQUILIBRIUM
}

/// Converts a mixed sample to a signed 16-bit sample.
pub fn int16_sample(sample: i64) -> (out: i16)
    ensures
        out == int16_sample_spec(sample),
        -INT16_FULL_SCALE <= out <= INT16_FULL_SCALE,
{
    let kept: i64 = if sample > SAMPLE_ONE {
        SAMPLE_ONE
    } else if sample < -SAMPLE_ONE {
        -SAMPLE_ONE
    } else {
        sample
    };
    if kept >= 0 {
        let scaled: i64 = kept * INT16_FULL_SCALE / SAMPLE_ONE;
        scaled as i16
    } else {
        let scaled: i64 = (-kept) * INT16_FULL_SCALE / SAMPLE_ONE;
        (-scaled) as i16
    }
}

/// Converts a mixed sample to an unsigned 16-bit sample.
pub fn uint16_sample(sample: i64) -> (out: u16)
    ensures
        out == uint16_sample_spec(sample),
        1 <= out <= 65_535,
{
    let signed = int16_sample(sample) as i32;
    (signed + UINT16_EQUILIBRIUM as i32) as u16
}

/// Silence is the equilibrium of both integer representations: `0` for
/// signed samples, the middle of the range for unsigned ones.
pub proof fn law_silence_is_equilibrium()
    ensures
        int16_sample_spec(0) == INT16_EQUILIBRIUM,
        uint16_sample_spec(0) == UINT16_EQUILIBRIUM,
{
}

/// A full turn, in the units parts of a turn are counted in.
pub const TURN: u64 = 1_000_000_000_000_000;

/// An angle whose sine is asked for.
#[derive(Clone, Copy, Debug, PartialEq, Eq, Structural)]
pub enum Angle {
    /// A part of a full turn, counted in `TURN`ths of a turn.
    Turns(u64),
    /// Radians, counted in thousand-millionths of a radian.
    Radians(u128),
}

/// The angle of an oscillator of a click of frequency `frequency`, `time`
/// nanoseconds after the click started.
///
/// A multiple of the click's frequency has made `frequency * ratio * time`
/// turns by then, counted in `TURN`ths; whole turns are dropped. A fixed
/// angular frequency has covered `rate * time` thousand-millionths of a
/// radian.
pub open spec fn angle_spec(oscillator: Oscillator, frequency: u32, time: u64) -> Angle {
    match oscillator {
        Oscillator::Harmonic(ratio) => Angle::Turns(
            ((frequency * ratio * time) % (TURN as int)) as u64,
        ),
        Oscillator::Fixed(rate) => Angle::Radians((rate * time) as u128),
    }
}

/// How far a partial of a click of decay rate `decay` has died away `time`
/// nanoseconds after the click started: its envelope is the exponential of
/// minus this, counted in `TURN`ths of one.
pub open spec fn exponent_spec(partial: Partial, decay: u32, time: u64) -> u128 {
    (decay * partial.decay * time) as u128
}

/// The level of a partial: its sine times its envelope, both in millionths
/// and first kept within their ranges, rounded towards silence.
pub open spec fn level_spec(sine: i32, envelope: i32) -> int {
    let swing: int = if sine > LEVEL_ONE {
        LEVEL_ONE as int
    } else if sine < -LEVEL_ONE {
        -LEVEL_ONE
    } else {
        sine as int
    };
    let height: int = if envelope > LEVEL_ONE {
        LEVEL_ONE as int
    } else if envelope < 0 {
        0
    } else {
        envelope as int
    };
    if swing >= 0 {
        swing * height / (LEVEL_ONE as int)
    } else {
        -((-swing) * height / (LEVEL_ONE as int))
    }
}

/// The levels of the four partials, from their sines and envelopes.
pub open spec fn levels_of(sines: Seq<i32>, envelopes: Seq<i32>) -> Seq<i32> {
    Seq::new(PARTIAL_COUNT as nat, |k: int| level_spec(sines[k], envelopes[k]) as i32)
}

/// `out` is a sample of the click with the given parameters at `time`:
/// there are sines and envelopes, as `sine` and `envelope` give them for the
/// angle and the exponent of each partial, that mix to `out`.
pub open spec fn is_sample<S: Fn(Angle) -> i32, E: Fn(u128) -> i32>(
    out: i64,
    frequency: u32,
    decay: u32,
    volume: u32,
    time: u64,
    sine: S,
    envelope: E,
) -> bool {
    exists|sines: Seq<i32>, envelopes: Seq<i32>|
        {
            &&& sines.len() == PARTIAL_COUNT
            &&& envelopes.len() == PARTIAL_COUNT
            &&& forall|k: int|
                0 <= k < PARTIAL_COUNT ==> call_ensures(
                    sine,
                    (angle_spec(partial_spec(k).oscillator, frequency, time),),
                    #[trigger] sines[k],
                )
            &&& forall|k: int|
                0 <= k < PARTIAL_COUNT ==> call_ensures(
                    envelope,
                    (exponent_spec(partial_spec(k), decay, time),),
                    #[trigger] envelopes[k],
                )
            &&& #[trigger] mix_spec(volume, levels_of(sines, envelopes)) == out
        }
}

/// At the very start of a click every angle is zero.
pub proof fn law_click_starts_at_angle_zero(oscillator: Oscillator, frequency: u32)
    ensures
        angle_spec(oscillator, frequency, 0) == (match oscillator {
            Oscillator::Harmonic(_) => Angle::Turns(0),
            Oscillator::Fixed(_) => Angle::Radians(0),
        }),
{
}

/// A partial is no louder than its envelope, and silent where its sine is
/// zero.
pub proof fn law_level_within_envelope(sine: i32, envelope: i32)
    ensures
        0 <= envelope <= LEVEL_ONE ==> -envelope <= level_spec(sine, envelope) <= envelope,
        -LEVEL_ONE <= level_spec(sine, envelope) <= LEVEL_ONE,
        level_spec(0, envelope) == 0,
        level_spec(sine, 0) == 0,
{
    let swing: int = if sine > LEVEL_ONE {
        LEVEL_ONE as int
    } else if sine < -LEVEL_ONE {
        -LEVEL_ONE
    } else {
        sine as int
    };
    let height: int = if envelope > LEVEL_ONE {
        LEVEL_ONE as int
    } else if envelope < 0 {
        0
    } else {
        envelope as int
    };
    let reach: int = if swing >= 0 {
        swing
    } else {
        -swing
    };
    assert(0 <= reach * height / (LEVEL_ONE as int) <= height) by (nonlinear_arith)
        requires
            0 <= reach <= LEVEL_ONE,
            0 <= height <= LEVEL_ONE,
    ;
}

/// A click dies away with its envelopes: once every envelope has fallen to
/// `bound` or below, the sample lies within the volume times the total
/// weight times `bound` of silence, whatever the sines are.
pub proof fn law_click_dies_with_its_envelopes(
    volume: u32,
    sines: Seq<i32>,
    envelopes: Seq<i32>,
    bound: nat,
)
    requires
        sines.len() == PARTIAL_COUNT,
        envelopes.len() == PARTIAL_COUNT,
        bound <= LEVEL_ONE,
        forall|k: int| 0 <= k < PARTIAL_COUNT ==> 0 <= #[trigger] envelopes[k] <= bound,
    ensures
        -(volume * (TOTAL_WEIGHT * bound)) <= mix_spec(volume, levels_of(sines, envelopes))
            <= volume * (TOTAL_WEIGHT * bound),
{
    let levels = levels_of(sines, envelopes);
    assert forall|k: int| 0 <= k < PARTIAL_COUNT implies -bound <= #[trigger] levels[k]
        <= bound by {
        law_level_within_envelope(sines[k], envelopes[k]);
    }
    law_sample_bounded_by_envelope(volume, levels, bound);
}

/// A click starts from silence: where every sine is zero, as at the very
/// start of a click, the sample is zero at any volume.
pub proof fn law_click_starts_from_silence(volume: u32, sines: Seq<i32>, envelopes: Seq<i32>)
    requires
        sines.len() == PARTIAL_COUNT,
        envelopes.len() == PARTIAL_COUNT,
        forall|k: int| 0 <= k < PARTIAL_COUNT ==> #[trigger] sines[k] == 0,
    ensures
        mix_spec(volume, levels_of(sines, envelopes)) == 0,
{
    let levels = levels_of(sines, envelopes);
    assert(weighted_sum(levels) == 0);
}

/// Computes the angle of an oscillator.
pub fn angle(oscillator: Oscillator, frequency: u32, time: u64) -> (angle: Angle)
    ensures
        angle == angle_spec(oscillator, frequency, time),
{
    match oscillator {
        Oscillator::Harmonic(ratio) => {
            assert(frequency * ratio * time <= 0xffff_ffff * 0xffff_ffff * 0xffff_ffff_ffff_ffff)
                by (nonlinear_arith)
                requires
                    0 <= frequency <= 0xffff_ffff,
                    0 <= ratio <= 0xffff_ffff,
                    0 <= time <= 0xffff_ffff_ffff_ffff,
            ;
            assert(frequency * ratio <= 0xffff_ffff * 0xffff_ffff) by (nonlinear_arith)
                requires
                    0 <= frequency <= 0xffff_ffff,
                    0 <= ratio <= 0xffff_ffff,
            ;
            let turns: u128 = (frequency as u128) * (ratio as u128) * (time as u128);
            Angle::Turns((turns % (TURN as u128)) as u64)
        },
        Oscillator::Fixed(rate) => {
            assert(rate * time <= 0xffff_ffff * 0xffff_ffff_ffff_ffff) by (nonlinear_arith)
                requires
                    0 <= rate <= 0xffff_ffff,
                    0 <= time <= 0xffff_ffff_ffff_ffff,
            ;
            Angle::Radians((rate as u128) * (time as u128))
        },
    }
}

/// Computes how far a partial has died away.
pub fn exponent(partial: Partial, decay: u32, time: u64) -> (exponent: u128)
    ensures
        exponent == exponent_spec(partial, decay, time),
{
    assert(decay * partial.decay * time <= 0xffff_ffff * 0xffff_ffff * 0xffff_ffff_ffff_ffff)
        by (nonlinear_arith)
        requires
            0 <= decay <= 0xffff_ffff,
            0 <= partial.decay <= 0xffff_ffff,
            0 <= time <= 0xffff_ffff_ffff_ffff,
    ;
    assert(decay * partial.decay <= 0xffff_ffff * 0xffff_ffff) by (nonlinear_arith)
        requires
            0 <= decay <= 0xffff_ffff,
            0 <= partial.decay <= 0xffff_ffff,
    ;
    (decay as u128) * (partial.decay as u128) * (time as u128)
}

/// Computes the level of a partial from its sine and its envelope.
pub fn level(sine: i32, envelope: i32) -> (level: i32)
    ensures
        level == level_spec(sine, envelope),
        -LEVEL_ONE <= level <= LEVEL_ONE,
{
    let swing: i64 = if sine > LEVEL_ONE {
        LEVEL_ONE as i64
    } else if sine < -LEVEL_ONE {
        -(LEVEL_ONE as i64)
    } else {
        sine as i64
    };
    let height: i64 = if envelope > LEVEL_ONE {
        LEVEL_ONE as i64
    } else if envelope < 0 {
        0
    } else {
        envelope as i64
    };
    proof {
        law_level_within_envelope(sine, envelope);
    }
    if swing >= 0 {
        (swing * height / (LEVEL_ONE as i64)) as i32
    } else {
        (-((-swing) * height / (LEVEL_ONE as i64))) as i32
    }
}

/// Computes one sample of a click, `time` nanoseconds after it started.
///
/// `sine` is asked for the sine of the angle of each partial, `envelope` for
/// the exponential of minus its exponent, both in millionths. The sample is
/// in million-millionths of full scale and never leaves full scale.
pub fn sample<S: Fn(Angle) -> i32, E: Fn(u128) -> i32>(
    frequency: u32,
    decay: u32,
    volume: u32,
    time: u64,
    sine: &S,
    envelope: &E,
) -> (out: i64)
    requires
        forall|angle: Angle| call_requires(*sine, (angle,)),
        forall|exponent: u128| call_requires(*envelope, (exponent,)),
    ensures
        is_sample(out, frequency, decay, volume, time, *sine, *envelope),
        -SAMPLE_ONE <= out <= SAMPLE_ONE,
{
    let table = partials();
    let mut levels: [i32; 4] = [0, 0, 0, 0];
    let ghost mut sines: Seq<i32> = Seq::empty();
    let ghost mut envelopes: Seq<i32> = Seq::empty();
    let mut index: usize = 0;
    while index < PARTIAL_COUNT
        invariant
            index <= PARTIAL_COUNT,
            forall|angle: Angle| call_requires(*sine, (angle,)),
            forall|exponent: u128| call_requires(*envelope, (exponent,)),
            forall|k: int| 0 <= k < PARTIAL_COUNT ==> table[k] == partial_spec(k),
            sines.len() == index,
            envelopes.len() == index,
            forall|k: int|
                0 <= k < index ==> call_ensures(
                    *sine,
                    (angle_spec(partial_spec(k).oscillator, frequency, time),),
                    #[trigger] sines[k],
                ),
            forall|k: int|
                0 <= k < index ==> call_ensures(
                    *envelope,
                    (exponent_spec(partial_spec(k), decay, time),),
                    #[trigger] envelopes[k],
                ),
            forall|k: int|
                0 <= k < index ==> #[trigger] levels[k] == level_spec(sines[k], envelopes[k]),
        decreases PARTIAL_COUNT - index,
    {
        let partial = table[index];
        let swing = sine(angle(partial.oscillator, frequency, time));
        let height = envelope(exponent(partial, decay, time));
        levels[index] = level(swing, height);
        proof {
            sines = sines.push(swing);
            envelopes = envelopes.push(height);
        }
        index += 1;
    }
    assert(levels@ == levels_of(sines, envelopes));
    mix(volume, &levels)
}

/// The partials of a click, in order.
pub fn partials() -> (table: [Partial; 4])
    ensures
        forall|index: int| 0 <= index < PARTIAL_COUNT ==> table[index] == partial_spec(index),
{
    [
        Partial { oscillator: Oscillator::Harmonic(1000), weight: 1000, decay: 1000 },
        Partial { oscillator: Oscillator::Harmonic(1500), weight: 500, decay: 1200 },
        Partial { oscillator: Oscillator::Harmonic(2000), weight: 250, decay: 1500 },
        Partial { oscillator: Oscillator::Fixed(1000), weight: 100, decay: 2000 },
    ]
}

/// Mixes the levels of the four partials into one sample.
///
/// `volume` is in thousandths, each level in millionths, the sample in
/// million-millionths, clamped to full scale.
pub fn mix(volume: u32, levels: &[i32; 4]) -> (sample: i64)
    ensures
        sample == mix_spec(volume, levels@),
        -SAMPLE_ONE <= sample <= SAMPLE_ONE,
{
    let table = partials();
    let mut sum: i128 = 0;
    let mut index: usize = 0;
    while index < PARTIAL_COUNT
        invariant
            index <= PARTIAL_COUNT,
            forall|k: int| 0 <= k < PARTIAL_COUNT ==> table[k] == partial_spec(k),
            sum == partial_sum(levels@, index as int),
            -(index * 1000 * 0x8000_0000) <= sum <= index * 1000 * 0x8000_0000,
        decreases PARTIAL_COUNT - index,
    {
        assert(table[index as int] == partial_spec(index as int));
        let weight = table[index].weight as i128;
        let level = levels[index] as i128;
        assert(-1000 * 0x8000_0000 <= weight * level <= 1000 * 0x8000_0000) by (nonlinear_arith)
            requires
                0 <= weight <= 1000,
                -0x8000_0000 <= level <= 0x8000_0000,
        ;
        sum = sum + weight * level;
        index += 1;
    }
    assert(sum == weighted_sum(levels@)) by {
        reveal_with_fuel(partial_sum, 5);
    }
    let gain = volume as i128;
    assert(-0x1_0000_0000 * (4 * 1000 * 0x8000_0000) <= gain * sum <= 0x1_0000_0000 * (4 * 1000
        * 0x8000_0000)) by (nonlinear_arith)
        requires
            0 <= gain <= 0x1_0000_0000,
            -(4 * 1000 * 0x8000_0000) <= sum <= 4 * 1000 * 0x8000_0000,
    ;
    let scaled: i128 = gain * sum;
    if scaled > SAMPLE_ONE as i128 {
        SAMPLE_ONE
    } else if scaled < -(SAMPLE_ONE as i128) {
        -SAMPLE_ONE
    } else {
        scaled as i64
    }
}

/// The weighted sum of the first `count` partials.
pub open spec fn partial_sum(levels: Seq<i32>, count: int) -> int
    decreases count,
{
    if count <= 0 {
        0
    } else {
        partial_sum(levels, count - 1) + partial_spec(count - 1).weight * levels[count - 1]
    }
}

} // verus!
