use noisy_trackball::quantizer::{quantize, quantize_random, Outcome, QuantizerConfig};

fn cfg() -> QuantizerConfig {
    QuantizerConfig {
        threshold_milli: 100,
        scale: 6,
        levels: 10,
        overflow_lo: 7,
        overflow_hi: 9,
        promote_two_pct: 30,
        promote_three_pct: 20,
    }
}

#[test]
fn slow_motion_is_silent() {
    // threshold 0.1, sample (0.05, 0.05): both components below threshold.
    let c = cfg();
    assert_eq!(quantize(&c, 50, 50, 7, 0), Outcome::Silent);
    assert_eq!(quantize_random(&c, 50, 50), Outcome::Silent);
}

#[test]
fn negative_components_count_by_magnitude() {
    let c = cfg();
    assert_eq!(quantize(&c, -50, -50, 7, 0), Outcome::Silent);
    assert_eq!(quantize(&c, -100, 100, 9, 99), Outcome::Silent);
    // A negative component above the threshold in magnitude is motion.
    assert_eq!(quantize(&c, -3000, -3000, 7, 99), Outcome::Play(3));
}

#[test]
fn threshold_is_inclusive() {
    let c = cfg();
    assert_eq!(quantize(&c, 100, 100, 7, 0), Outcome::Silent);
    // One component just over the threshold is no longer noise; the raw
    // level of so small a motion is one, so it goes through promotion.
    let o = quantize(&c, 100, 101, 7, 99);
    assert_eq!(o, Outcome::Play(1));
}

#[test]
fn diagonal_three_units_plays_level_three() {
    // (dx, dy) = (3, 3), scale 6: magnitude squared 18, sqrt(18 * 6) is
    // about 10.39, log2 of that about 3.38, truncated to level 3.
    let c = cfg();
    assert_eq!(quantize(&c, 3000, 3000, 7, 99), Outcome::Play(3));
    assert_eq!(quantize_random(&c, 3000, 3000), Outcome::Play(3));
}

#[test]
fn moderate_motion_exact_levels() {
    let c = cfg();
    // (0.101, 0): scaled squared magnitude 0.061206, half-log2 gives 2.
    assert_eq!(quantize(&c, 101, 0, 7, 99), Outcome::Play(2));
    // (0.4, 0): scaled squared magnitude 0.96, within a factor four of
    // one, so the raw level is zero and the sample is silent.
    assert_eq!(quantize(&c, 400, 0, 7, 99), Outcome::Silent);
}

#[test]
fn lowest_level_promotion_bands() {
    let c = cfg();
    // (1, 0): scaled squared magnitude 6, raw level 1, so the promotion
    // roll decides: under 30 gives level 2, under 50 gives level 3, the
    // rest stay at level 1.
    assert_eq!(quantize(&c, 1000, 0, 7, 0), Outcome::Play(2));
    assert_eq!(quantize(&c, 1000, 0, 7, 29), Outcome::Play(2));
    assert_eq!(quantize(&c, 1000, 0, 7, 30), Outcome::Play(3));
    assert_eq!(quantize(&c, 1000, 0, 7, 49), Outcome::Play(3));
    assert_eq!(quantize(&c, 1000, 0, 7, 50), Outcome::Play(1));
    assert_eq!(quantize(&c, 1000, 0, 7, 99), Outcome::Play(1));
}

#[test]
fn overflow_substitutes_fixed_roll() {
    let c = cfg();
    // A very fast motion: one thousand units. The raw level far exceeds
    // ten, so the outcome is exactly the substituted roll.
    assert_eq!(quantize(&c, 1_000_000_000, 0, 7, 99), Outcome::Play(7));
    assert_eq!(quantize(&c, 1_000_000_000, 0, 8, 99), Outcome::Play(8));
    assert_eq!(quantize(&c, 1_000_000_000, 0, 9, 99), Outcome::Play(9));
}

#[test]
fn overflow_random_stays_in_high_subrange() {
    let c = cfg();
    for _ in 0..200 {
        match quantize_random(&c, 1_000_000_000, 0) {
            Outcome::Play(level) => assert!((7..=9).contains(&level)),
            Outcome::Silent => panic!("fast motion must not be silent"),
        }
    }
}

#[test]
fn random_levels_always_in_range() {
    let c = cfg();
    let deltas: [i64; 7] = [101, 250, 1000, 5000, 60_000, 3_000_000, 900_000_000];
    for &d in deltas.iter() {
        for _ in 0..50 {
            match quantize_random(&c, d, -d) {
                Outcome::Play(level) => assert!((1..=10).contains(&level)),
                Outcome::Silent => {}
            }
        }
    }
}

#[test]
fn promotion_statistics_roughly_match_bands() {
    // Level 1 motion: about 30% of trials should come out at level 2,
    // about 20% at level 3, the rest stay at level 1.
    let c = cfg();
    let trials = 20_000u32;
    let mut counts = [0u32; 4];
    for _ in 0..trials {
        match quantize_random(&c, 1000, 0) {
            Outcome::Play(level) if (1..=3).contains(&level) => {
                counts[level as usize] += 1;
            }
            other => panic!("unexpected outcome {:?}", other),
        }
    }
    let pct = |n: u32| (n as f64) * 100.0 / (trials as f64);
    assert!((pct(counts[2]) - 30.0).abs() < 5.0, "level 2 share {}", pct(counts[2]));
    assert!((pct(counts[3]) - 20.0).abs() < 5.0, "level 3 share {}", pct(counts[3]));
    assert!((pct(counts[1]) - 50.0).abs() < 5.0, "level 1 share {}", pct(counts[1]));
}
