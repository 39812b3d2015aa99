//! The intensity quantizer: maps one motion sample, given in integer
//! milli-units, to a discrete intensity level in `[1, levels]` or to silence.
//!
//! The mapping follows `trunc(|log2(sqrt((dx*dx + dy*dy) * scale))|)` over
//! the real-valued motion, computed exactly on integers: with deltas in
//! milli-units the squared magnitude is in micro-units, and the truncated
//! absolute half-log2 of a value `v` is the number of times `v` can be
//! quadrupled from (or toward) one squared unit.

use vstd::math::abs;
use vstd::prelude::*;

verus! {

/// One squared unit expressed in micro-units: deltas are milli-units, so a
/// product of two deltas is in millionths of a squared unit.
pub const SQ_UNIT_MICRO: u128 = 1_000_000;

/// Largest motion delta accepted, in milli-units (a million device units).
pub const DELTA_LIMIT_MILLI: i64 = 1_000_000_000;

/// Largest scaled squared magnitude that can arise from in-range deltas and
/// a well-formed configuration.
pub const SCALED_SQ_LIMIT: u128 = 2_000_000_000_000_000_000_000_000;

/// How often `t` can be quadrupled while staying at or below `v`: exactly
/// `floor(log4(v / t))` when `t <= v`, and zero otherwise.
pub open spec fn log4_steps(t: int, v: int) -> nat
    decreases v - t when t >= 1
{
    if t * 4 > v {
        0
    } else {
        1 + log4_steps(t * 4, v)
    }
}

/// Quadrupling from `t` stays below `v` after at most `v - t` steps.
proof fn lemma_log4_steps_le(t: int, v: int)
    requires
        1 <= t <= v,
    ensures
        log4_steps(t, v) <= v - t,
    decreases v - t,
{
    if t * 4 <= v {
        lemma_log4_steps_le(t * 4, v);
    }
}

/// Counts how often `start` can be quadrupled while staying at or below
/// `cap`; this is the truncated base-4 logarithm of `cap / start`.
fn count_quadruplings(start: u128, cap: u128) -> (steps: u128)
    requires
        1 <= start <= SCALED_SQ_LIMIT,
        cap <= SCALED_SQ_LIMIT,
    ensures
        steps == log4_steps(start as int, cap as int),
{
    proof {
        if start <= cap {
            lemma_log4_steps_le(start as int, cap as int);
        }
    }
    let ghost total: nat = log4_steps(start as int, cap as int);
    let mut t: u128 = start;
    let mut steps: u128 = 0;
    while t * 4 <= cap
        invariant
            1 <= t <= SCALED_SQ_LIMIT,
            cap <= SCALED_SQ_LIMIT,
            total <= SCALED_SQ_LIMIT,
            steps + log4_steps(t as int, cap as int) == total,
        decreases cap - t,
    {
        t = t * 4;
        steps = steps + 1;
    }
    steps
}

/// The tunable constants of the quantizer: the no-motion threshold, the
/// magnitude scale, the number of intensity levels, the high sub-range used
/// to substitute overflowing levels, and the probability bands (in percent)
/// that promote the lowest level to level two or three.
#[derive(Clone, Copy, PartialEq, Eq, Structural, Debug)]
pub struct QuantizerConfig {
    pub threshold_milli: u64,
    pub scale: u64,
    pub levels: u64,
    pub overflow_lo: u64,
    pub overflow_hi: u64,
    pub promote_two_pct: u64,
    pub promote_three_pct: u64,
}

impl QuantizerConfig {
    /// A configuration is well formed when the overflow sub-range sits
    /// inside `[1, levels]`, promotion can reach level three, the promotion
    /// bands fit in one hundred percent, and the scale stays within the
    /// range that keeps the squared magnitude exact.
    pub open spec fn wf(self) -> bool {
        &&& 1 <= self.scale <= 1_000_000
        &&& 3 <= self.levels <= 1_000_000
        &&& 1 <= self.overflow_lo <= self.overflow_hi <= self.levels
        &&& self.promote_two_pct + self.promote_three_pct <= 100
        &&& self.threshold_milli <= DELTA_LIMIT_MILLI
    }
}

/// What one motion sample maps to: silence, or a clip at one intensity level.
#[derive(Clone, Copy, PartialEq, Eq, Structural, Debug)]
pub enum Outcome {
    Silent,
    Play(u64),
}

/// A sample is treated as noise when both components are at or below the
/// threshold in magnitude.
pub open spec fn below_threshold(cfg: QuantizerConfig, dx_milli: int, dy_milli: int) -> bool {
    abs(dx_milli) <= cfg.threshold_milli && abs(dy_milli) <= cfg.threshold_milli
}

/// The scaled squared magnitude of a sample, in micro-units.
pub open spec fn scaled_sq_micro(cfg: QuantizerConfig, dx_milli: int, dy_milli: int) -> int {
    (dx_milli * dx_milli + dy_milli * dy_milli) * cfg.scale
}

/// The truncated absolute half-log2 of the scaled squared magnitude: the
/// level before the overflow and promotion policies are applied.
pub open spec fn raw_level(cfg: QuantizerConfig, dx_milli: int, dy_milli: int) -> nat {
    let v = scaled_sq_micro(cfg, dx_milli, dy_milli);
    if v >= SQ_UNIT_MICRO {
        log4_steps(SQ_UNIT_MICRO as int, v)
    } else {
        log4_steps(v, SQ_UNIT_MICRO as int)
    }
}

/// The anti-repetition policy for the lowest level: a roll in `[0, 100)`
/// promotes level one to level two or three with the configured odds.
pub open spec fn promoted_level(cfg: QuantizerConfig, promotion_roll: u64) -> u64 {
    if promotion_roll < cfg.promote_two_pct {
        2
    } else if promotion_roll < cfg.promote_two_pct + cfg.promote_three_pct {
        3
    } else {
        1
    }
}

/// The whole quantizer as a mathematical function of the sample and the two
/// injected random rolls: noise and a zero raw level map to silence, a raw
/// level beyond `levels` is replaced by the overflow roll, the lowest level
/// goes through promotion, and every other raw level is played as it is.
pub open spec fn quantized(
    cfg: QuantizerConfig,
    dx_milli: int,
    dy_milli: int,
    overflow_roll: u64,
    promotion_roll: u64,
) -> Outcome {
    if below_threshold(cfg, dx_milli, dy_milli) {
        Outcome::Silent
    } else {
        let raw = raw_level(cfg, dx_milli, dy_milli);
        if raw == 0 {
            Outcome::Silent
        } else if raw > cfg.levels {
            Outcome::Play(overflow_roll)
        } else if raw == 1 {
            Outcome::Play(promoted_level(cfg, promotion_roll))
        } else {
            Outcome::Play(raw as u64)
        }
    }
}

/// Whether a sample maps to silence; this does not depend on the rolls.
pub open spec fn silent_motion(cfg: QuantizerConfig, dx_milli: int, dy_milli: int) -> bool {
    below_threshold(cfg, dx_milli, dy_milli) || raw_level(cfg, dx_milli, dy_milli) == 0
}

/// Maps one motion sample to an outcome, with the two random rolls passed
/// in so that the whole function is deterministic.
pub fn quantize(
    cfg: &QuantizerConfig,
    dx_milli: i64,
    dy_milli: i64,
    overflow_roll: u64,
    promotion_roll: u64,
) -> (o: Outcome)
    requires
        cfg.wf(),
        -DELTA_LIMIT_MILLI <= dx_milli <= DELTA_LIMIT_MILLI,
        -DELTA_LIMIT_MILLI <= dy_milli <= DELTA_LIMIT_MILLI,
        cfg.overflow_lo <= overflow_roll <= cfg.overflow_hi,
        promotion_roll < 100,
    ensures
        o == quantized(*cfg, dx_milli as int, dy_milli as int, overflow_roll, promotion_roll),
{
    let adx: u64 = if dx_milli < 0 { (-dx_milli) as u64 } else { dx_milli as u64 };
    let ady: u64 = if dy_milli < 0 { (-dy_milli) as u64 } else { dy_milli as u64 };
    if adx <= cfg.threshold_milli && ady <= cfg.threshold_milli {
        return Outcome::Silent;
    }
    assert(adx * adx + ady * ady == dx_milli * dx_milli + dy_milli * dy_milli
        && adx * adx + ady * ady <= 2_000_000_000_000_000_000) by (nonlinear_arith)
        requires
            adx == dx_milli || adx == -(dx_milli as int),
            ady == dy_milli || ady == -(dy_milli as int),
            adx <= DELTA_LIMIT_MILLI,
            ady <= DELTA_LIMIT_MILLI,
    ;
    let sq: u128 = (adx as u128) * (adx as u128) + (ady as u128) * (ady as u128);
    assert(sq * cfg.scale <= SCALED_SQ_LIMIT) by (nonlinear_arith)
        requires
            sq <= 2_000_000_000_000_000_000,
            cfg.scale <= 1_000_000,
    ;
    let v: u128 = sq * (cfg.scale as u128);
    assert(1 <= v <= SCALED_SQ_LIMIT && v == scaled_sq_micro(*cfg, dx_milli as int, dy_milli as int))
        by (nonlinear_arith)
        requires
            sq == adx * adx + ady * ady,
            v == sq * cfg.scale,
            sq == dx_milli * dx_milli + dy_milli * dy_milli,
            sq <= 2_000_000_000_000_000_000,
            1 <= cfg.scale <= 1_000_000,
            1 <= adx || 1 <= ady,
    ;
    let raw: u128 = if v >= SQ_UNIT_MICRO {
        count_quadruplings(SQ_UNIT_MICRO, v)
    } else {
        count_quadruplings(v, SQ_UNIT_MICRO)
    };
    if raw == 0 {
        Outcome::Silent
    } else if raw > cfg.levels as u128 {
        Outcome::Play(overflow_roll)
    } else if raw == 1 {
        if promotion_roll < cfg.promote_two_pct {
            Outcome::Play(2)
        } else if promotion_roll < cfg.promote_two_pct + cfg.promote_three_pct {
            Outcome::Play(3)
        } else {
            Outcome::Play(1)
        }
    } else {
        Outcome::Play(raw as u64)
    }
}

/// Relies on rand::random_range: a draw from the inclusive range
/// `lo..=hi`, uniform over it; the range must not be empty.
#[verifier::external_body]
fn draw_in_range(lo: u64, hi: u64) -> (r: u64)
    requires
        lo <= hi,
    ensures
        lo <= r <= hi,
{
    rand::random_range(lo..=hi)
}

/// Maps one motion sample to an outcome, drawing the overflow substitute
/// and the promotion roll from the process random number generator.
/// Silence is decided by the sample alone; any played level is one the
/// deterministic quantizer produces for some in-range rolls.
pub fn quantize_random(cfg: &QuantizerConfig, dx_milli: i64, dy_milli: i64) -> (o: Outcome)
    requires
        cfg.wf(),
        -DELTA_LIMIT_MILLI <= dx_milli <= DELTA_LIMIT_MILLI,
        -DELTA_LIMIT_MILLI <= dy_milli <= DELTA_LIMIT_MILLI,
    ensures
        (o is Silent) == silent_motion(*cfg, dx_milli as int, dy_milli as int),
        o matches Outcome::Play(level) ==> 1 <= level <= cfg.levels,
        o matches Outcome::Play(level) ==> exists|orr: u64, prr: u64|
            cfg.overflow_lo <= orr <= cfg.overflow_hi && prr < 100
                && quantized(*cfg, dx_milli as int, dy_milli as int, orr, prr)
                    == Outcome::Play(level),
{
    let overflow_roll = draw_in_range(cfg.overflow_lo, cfg.overflow_hi);
    let promotion_roll = draw_in_range(0, 99);
    let o = quantize(cfg, dx_milli, dy_milli, overflow_roll, promotion_roll);
    proof {
        lemma_silence_is_deterministic(*cfg, dx_milli as int, dy_milli as int,
            overflow_roll, promotion_roll);
        lemma_level_in_range(*cfg, dx_milli as int, dy_milli as int,
            overflow_roll, promotion_roll);
    }
    o
}

/// A sample maps to silence or to a level independently of the rolls: the
/// outcome is silent exactly when the sample is noise or its raw level is
/// zero, whatever was drawn.
pub proof fn lemma_silence_is_deterministic(
    cfg: QuantizerConfig,
    dx_milli: int,
    dy_milli: int,
    overflow_roll: u64,
    promotion_roll: u64,
)
    ensures
        (quantized(cfg, dx_milli, dy_milli, overflow_roll, promotion_roll) is Silent)
            == silent_motion(cfg, dx_milli, dy_milli),
{
}

/// Every sample with both components at or below the threshold in
/// magnitude maps to silence, whatever the rolls.
pub proof fn lemma_noise_is_silent(
    cfg: QuantizerConfig,
    dx_milli: int,
    dy_milli: int,
    overflow_roll: u64,
    promotion_roll: u64,
)
    requires
        below_threshold(cfg, dx_milli, dy_milli),
    ensures
        quantized(cfg, dx_milli, dy_milli, overflow_roll, promotion_roll) is Silent,
{
}

/// Every level the quantizer plays lies in `[1, levels]`, provided the
/// rolls were drawn from their documented ranges.
pub proof fn lemma_level_in_range(
    cfg: QuantizerConfig,
    dx_milli: int,
    dy_milli: int,
    overflow_roll: u64,
    promotion_roll: u64,
)
    requires
        cfg.wf(),
        cfg.overflow_lo <= overflow_roll <= cfg.overflow_hi,
    ensures
        quantized(cfg, dx_milli, dy_milli, overflow_roll, promotion_roll)
            matches Outcome::Play(level) ==> 1 <= level <= cfg.levels,
{
}

/// A raw level beyond `levels` is never played as it is and never
/// rejected: the outcome is exactly the substituted roll, which lies in
/// the configured high sub-range and hence in `[1, levels]`.
pub proof fn lemma_overflow_stays_in_high_range(
    cfg: QuantizerConfig,
    dx_milli: int,
    dy_milli: int,
    overflow_roll: u64,
    promotion_roll: u64,
)
    requires
        cfg.wf(),
        cfg.overflow_lo <= overflow_roll <= cfg.overflow_hi,
        !below_threshold(cfg, dx_milli, dy_milli),
        raw_level(cfg, dx_milli, dy_milli) > cfg.levels,
    ensures
        quantized(cfg, dx_milli, dy_milli, overflow_roll, promotion_roll)
            == Outcome::Play(overflow_roll),
        cfg.overflow_lo <= overflow_roll <= cfg.overflow_hi <= cfg.levels,
{
}

} // verus!

