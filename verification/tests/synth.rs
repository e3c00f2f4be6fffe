use clickclack::audio::synth::{
    angle, exponent, int16_sample, level, mix, partials, sample, uint16_sample, Angle, Oscillator,
    Partial, INT16_EQUILIBRIUM, LEVEL_ONE, SAMPLE_ONE, TOTAL_WEIGHT, TURN, UINT16_EQUILIBRIUM,
};

/// The sine of an angle, in millionths, as a caller with floating-point
/// arithmetic computes it.
fn sine(angle: Angle) -> i32 {
    let radians = match angle {
        Angle::Turns(part) => 2.0 * std::f64::consts::PI * (part as f64 / TURN as f64),
        Angle::Radians(nanos) => nanos as f64 * 1e-9,
    };
    (radians.sin() * LEVEL_ONE as f64).round() as i32
}

/// The exponential of minus an exponent, in millionths.
fn envelope(exponent: u128) -> i32 {
    ((-(exponent as f64) / TURN as f64).exp() * LEVEL_ONE as f64).round() as i32
}

/// One sample of a click of `frequency` hertz and a decay of `decay` per
/// second, `seconds` after its start, as a fraction of full scale.
fn click(frequency: u32, decay: u32, volume: u32, seconds: f64) -> f64 {
    let time = (seconds * 1e9).round() as u64;
    let mixed = sample(frequency * 1000, decay * 1000, volume, time, &sine, &envelope);
    mixed as f64 / SAMPLE_ONE as f64
}

/// The same sample, computed in floating point throughout.
fn reference(frequency: f64, decay: f64, volume: f64, t: f64) -> f64 {
    let tau = 2.0 * std::f64::consts::PI;
    let base = (tau * frequency * t).sin() * (-t * decay).exp();
    let overtone = 0.5 * (tau * frequency * 1.5 * t).sin() * (-t * decay * 1.2).exp();
    let second_overtone = 0.25 * (tau * frequency * 2.0 * t).sin() * (-t * decay * 1.5).exp();
    let noise = 0.1 * (1000.0 * t).sin() * (-t * decay * 2.0).exp();
    (volume * (base + overtone + second_overtone + noise)).clamp(-1.0, 1.0)
}

#[test]
fn partial_table() {
    let table = partials();
    assert_eq!(
        table,
        [
            Partial { oscillator: Oscillator::Harmonic(1000), weight: 1000, decay: 1000 },
            Partial { oscillator: Oscillator::Harmonic(1500), weight: 500, decay: 1200 },
            Partial { oscillator: Oscillator::Harmonic(2000), weight: 250, decay: 1500 },
            Partial { oscillator: Oscillator::Fixed(1000), weight: 100, decay: 2000 },
        ]
    );
    let weights: u32 = table.iter().map(|partial| partial.weight).sum();
    assert_eq!(weights, TOTAL_WEIGHT);
}

#[test]
fn angles() {
    // 500 Hz for 1.5 ms is three quarters of a turn.
    assert_eq!(angle(Oscillator::Harmonic(1000), 500_000, 1_500_000), Angle::Turns(TURN / 4 * 3));
    // Whole turns are dropped: 2.5 ms is a turn and a quarter.
    assert_eq!(angle(Oscillator::Harmonic(1000), 500_000, 2_500_000), Angle::Turns(TURN / 4));
    // The overtone at one and a half times the frequency.
    assert_eq!(angle(Oscillator::Harmonic(1500), 500_000, 1_000_000), Angle::Turns(TURN / 4 * 3));
    // 1000 radians per second for 2 ms are 2 radians.
    assert_eq!(angle(Oscillator::Fixed(1000), 500_000, 2_000_000), Angle::Radians(2_000_000_000));
    assert_eq!(angle(Oscillator::Harmonic(2000), 440_000, 0), Angle::Turns(0));
    assert_eq!(angle(Oscillator::Fixed(1000), 440_000, 0), Angle::Radians(0));
    // The largest arguments do not overflow.
    assert_eq!(
        angle(Oscillator::Harmonic(u32::MAX), u32::MAX, u64::MAX),
        Angle::Turns(
            ((u32::MAX as u128 * u32::MAX as u128 * u64::MAX as u128) % TURN as u128) as u64
        )
    );
    assert_eq!(
        angle(Oscillator::Fixed(u32::MAX), 0, u64::MAX),
        Angle::Radians(u32::MAX as u128 * u64::MAX as u128)
    );
}

#[test]
fn exponents() {
    let table = partials();
    // A decay of 30 per second for 0.1 s is an exponent of 3.
    assert_eq!(exponent(table[0], 30_000, 100_000_000), 3 * TURN as u128);
    assert_eq!(exponent(table[1], 30_000, 100_000_000), 36 * TURN as u128 / 10);
    assert_eq!(exponent(table[2], 30_000, 100_000_000), 45 * TURN as u128 / 10);
    assert_eq!(exponent(table[3], 30_000, 100_000_000), 6 * TURN as u128);
    assert_eq!(exponent(table[0], 30_000, 0), 0);
    assert_eq!(
        exponent(Partial { decay: u32::MAX, ..table[0] }, u32::MAX, u64::MAX),
        u32::MAX as u128 * u32::MAX as u128 * u64::MAX as u128
    );
}

#[test]
fn levels() {
    assert_eq!(level(LEVEL_ONE, LEVEL_ONE), LEVEL_ONE);
    assert_eq!(level(-LEVEL_ONE, LEVEL_ONE), -LEVEL_ONE);
    assert_eq!(level(500_000, 500_000), 250_000);
    assert_eq!(level(-500_000, 500_000), -250_000);
    assert_eq!(level(0, LEVEL_ONE), 0);
    assert_eq!(level(LEVEL_ONE, 0), 0);
    // Rounded towards silence.
    assert_eq!(level(999_999, 1), 0);
    assert_eq!(level(-999_999, 1), 0);
    assert_eq!(level(3, 500_000), 1);
    assert_eq!(level(-3, 500_000), -1);
    // Values out of range are taken for the nearest in range.
    assert_eq!(level(i32::MAX, LEVEL_ONE), LEVEL_ONE);
    assert_eq!(level(i32::MIN, i32::MAX), -LEVEL_ONE);
    assert_eq!(level(LEVEL_ONE, -5), 0);
}

#[test]
fn mix_exact_values() {
    // 0.5 * (1.0 * 0.2 + 0.5 * 0.4 + 0.25 * (-0.8) + 0.1 * 1.0) = 0.15
    assert_eq!(mix(500, &[200_000, 400_000, -800_000, 1_000_000]), 150_000_000_000);
    assert_eq!(mix(1000, &[0, 0, 0, 0]), 0);
    assert_eq!(mix(0, &[LEVEL_ONE, LEVEL_ONE, LEVEL_ONE, LEVEL_ONE]), 0);
    assert_eq!(mix(1000, &[1, 0, 0, 0]), 1_000_000);
    assert_eq!(mix(1000, &[0, 1, 0, 0]), 500_000);
    assert_eq!(mix(1000, &[0, 0, 1, 0]), 250_000);
    assert_eq!(mix(1000, &[0, 0, 0, 1]), 100_000);
    assert_eq!(mix(1000, &[0, 0, 0, -1]), -100_000);
}

#[test]
fn mix_is_clamped_to_full_scale() {
    let loud = [LEVEL_ONE, LEVEL_ONE, LEVEL_ONE, LEVEL_ONE];
    assert_eq!(mix(1000, &loud), SAMPLE_ONE);
    let low = [-LEVEL_ONE, -LEVEL_ONE, -LEVEL_ONE, -LEVEL_ONE];
    assert_eq!(mix(1000, &low), -SAMPLE_ONE);
    assert_eq!(mix(1000, &[LEVEL_ONE, 0, 0, 0]), SAMPLE_ONE);
    assert_eq!(mix(u32::MAX, &[i32::MAX, i32::MAX, i32::MAX, i32::MAX]), SAMPLE_ONE);
    assert_eq!(mix(u32::MAX, &[i32::MIN, i32::MIN, i32::MIN, i32::MIN]), -SAMPLE_ONE);
}

#[test]
fn sample_with_given_sines_and_envelopes() {
    // Every sine a half, every envelope one: 1.85 * 0.5 at full volume.
    let half = |_: Angle| LEVEL_ONE / 2;
    let one = |_: u128| LEVEL_ONE;
    assert_eq!(sample(500_000, 30_000, 1000, 10_000_000, &half, &one), 925_000_000_000);
    assert_eq!(sample(500_000, 30_000, 400, 10_000_000, &half, &one), 370_000_000_000);
    // Only the fixed partial swings: a tenth of the volume.
    let fixed_only = |angle: Angle| match angle {
        Angle::Turns(_) => 0,
        Angle::Radians(_) => -LEVEL_ONE,
    };
    assert_eq!(sample(500_000, 30_000, 1000, 10_000_000, &fixed_only, &one), -100_000_000_000);
    // Each partial is weighed with its own envelope: 30 per second for a
    // tenth of a second gives the exponents 3, 3.6, 4.5 and 6.
    let full = |_: Angle| LEVEL_ONE;
    let by_exponent = |exponent: u128| (exponent / (TURN as u128 / 10)) as i32 * 1_000;
    // 1.0 * 0.030 + 0.5 * 0.036 + 0.25 * 0.045 + 0.1 * 0.060 = 0.06525
    assert_eq!(
        sample(500_000, 30_000, 1000, 100_000_000, &full, &by_exponent),
        65_250_000_000
    );
}

#[test]
fn sample_agrees_with_floating_point() {
    for (frequency, decay, volume) in [(500, 30, 1000), (440, 12, 600), (1_000, 80, 250)] {
        for step in 0..200 {
            let seconds = step as f64 * 0.000_5;
            let ours = click(frequency, decay, volume, seconds);
            let theirs = reference(frequency as f64, decay as f64, volume as f64 / 1000.0, seconds);
            assert!((ours - theirs).abs() < 1e-5, "{} against {} at {}", ours, theirs, seconds);
        }
    }
}

#[test]
fn volume_scaling_is_linear_within_range() {
    let levels = [150_000, -20_000, 300_000, 7];
    for volume in [0u32, 1, 125, 250, 400, 500] {
        assert_eq!(mix(2 * volume, &levels), 2 * mix(volume, &levels));
    }
    for step in 1..20 {
        let time = step * 1_000_000;
        let soft = sample(500_000, 30_000, 200, time, &sine, &envelope);
        let loud = sample(500_000, 30_000, 400, time, &sine, &envelope);
        assert_eq!(loud, 2 * soft);
    }
}

#[test]
fn volume_scaling_stops_at_full_scale() {
    let loud = [LEVEL_ONE, LEVEL_ONE, LEVEL_ONE, LEVEL_ONE];
    assert_eq!(mix(500, &loud), 925_000_000_000);
    assert_eq!(mix(1000, &loud), SAMPLE_ONE);
}

#[test]
fn click_scenario() {
    // At the very start every sine is at zero.
    assert_eq!(click(500, 30, 1000, 0.0), 0.0);

    // Ten milliseconds in, the click is audible and within full scale.
    let early = click(500, 30, 1000, 0.01);
    assert!(early != 0.0);
    assert!((-1.0..=1.0).contains(&early));

    // Two tenths of a second in, it has died away.
    let late = click(500, 30, 1000, 0.2);
    assert!(late.abs() < 1e-3);
}

#[test]
fn click_dies_away() {
    // The envelope of the slowest partial bounds the click: by the end of
    // the audible window it has fallen below a tenth of full scale, and it
    // keeps falling.
    let mut previous_bound = f64::INFINITY;
    for tenths in 1..=10 {
        let seconds = tenths as f64 * 0.1;
        let bound = 1.85 * (-seconds * 30.0f64).exp();
        assert!(click(500, 30, 1000, seconds).abs() <= bound + 1e-5);
        assert!(bound < previous_bound);
        previous_bound = bound;
    }
    assert!(click(500, 30, 1000, 0.1).abs() < 0.1);
    assert!(click(500, 30, 1000, 1.0).abs() < 1e-6);
}

#[test]
fn sample_is_bounded_by_the_envelope_of_its_partials() {
    // Every partial within 0.001 of silence, at a volume of 0.4: the sample
    // lies within 0.4 * 1.85 * 0.001.
    let bound = 400 * 1850 * 1_000;
    for levels in [[1_000, 1_000, 1_000, 1_000], [-1_000, 1_000, -1_000, 0], [999, -3, 0, 1_000]] {
        assert!(mix(400, &levels).abs() <= bound);
    }
    assert_eq!(mix(400, &[1_000, 1_000, 1_000, 1_000]), bound);
    assert_eq!(mix(400, &[-1_000, -1_000, -1_000, -1_000]), -bound);

    let faint = |_: u128| 1_000;
    for step in 0..50 {
        let mixed = sample(500_000, 30_000, 400, step * 777_777, &sine, &faint);
        assert!(mixed.abs() <= bound);
    }
}

#[test]
fn integer_samples() {
    assert_eq!(int16_sample(0), INT16_EQUILIBRIUM);
    assert_eq!(int16_sample(0), 0);
    assert_eq!(int16_sample(SAMPLE_ONE), 32_767);
    assert_eq!(int16_sample(-SAMPLE_ONE), -32_767);
    assert_eq!(int16_sample(SAMPLE_ONE / 2), 16_383);
    assert_eq!(int16_sample(-SAMPLE_ONE / 2), -16_383);
    assert_eq!(int16_sample(i64::MAX), 32_767);
    assert_eq!(int16_sample(i64::MIN), -32_767);
    assert_eq!(int16_sample(30_518_509), 0);
    assert_eq!(int16_sample(30_518_510), 1);
    assert_eq!(int16_sample(-30_518_510), -1);

    assert_eq!(uint16_sample(0), UINT16_EQUILIBRIUM);
    assert_eq!(UINT16_EQUILIBRIUM, 32_768);
    assert_eq!(uint16_sample(SAMPLE_ONE), 65_535);
    assert_eq!(uint16_sample(-SAMPLE_ONE), 1);
    assert_eq!(uint16_sample(SAMPLE_ONE / 2), 49_151);
}
