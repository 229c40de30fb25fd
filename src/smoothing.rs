//! Adaptive exponential smoothing of raw speeds.
//!
//! The blend weight grows with the raw speed, so fast motion is taken in
//! quickly and slow motion is smoothed heavily; a decay factor below one
//! bleeds the average off on every update.
use vstd::prelude::*;
use crate::models::{Config, PERMILLE};

verus! {

pub open spec fn clamp(x: int, lo: int, hi: int) -> int {
    if x < lo {
        lo
    } else if x > hi {
        hi
    } else {
        x
    }
}

/// The blend weight given to a raw speed, in thousandths:
/// `clamp(raw / accel, accel_decay, accel_inc)`.
pub open spec fn blend_weight(cfg: Config, raw: int) -> int {
    clamp(raw * 1000 / cfg.accel as int, cfg.accel_decay as int, cfg.accel_inc as int)
}

/// `average * (1 - weight) * decay + raw * weight`, rounded down.
pub open spec fn smoothed(cfg: Config, average: int, raw: int) -> int {
    let w = blend_weight(cfg, raw);
    (average * (1000 - w) * cfg.decay + raw * w * 1000) / 1_000_000
}

pub open spec fn max(a: int, b: int) -> int {
    if a >= b {
        a
    } else {
        b
    }
}

/// One smoothing step: blends the raw speed `velocity` into `avg`.
pub fn update_avg(config: &Config, avg: u64, velocity: u64) -> (r: u64)
    requires
        config.wf(),
    ensures
        r == smoothed(*config, avg as int, velocity as int),
        r <= max(avg as int, velocity as int),
{
    let scaled: u128 = (velocity as u128) * (PERMILLE as u128) / (config.accel as u128);
    let weight: u128 = if scaled < config.accel_decay as u128 {
        config.accel_decay as u128
    } else if scaled > config.accel_inc as u128 {
        config.accel_inc as u128
    } else {
        scaled
    };
    let keep: u128 = PERMILLE as u128 - weight;
    let ghost m: int = max(avg as int, velocity as int);
    assert((avg as int) * keep * config.decay + (velocity as int) * weight * 1000 <= m * 1_000_000)
        by (nonlinear_arith)
        requires
            avg <= m,
            velocity <= m,
            0 <= avg,
            0 <= velocity,
            keep + weight == 1000,
            0 <= weight,
            0 <= keep,
            config.decay <= 1000,
    ;
    assert((avg as int) * keep <= m * 1000 && (avg as int) * keep * config.decay <= m * 1_000_000
        && (velocity as int) * weight <= m * 1000 && (velocity as int) * weight * 1000 <= m
        * 1_000_000) by (nonlinear_arith)
        requires
            avg <= m,
            velocity <= m,
            0 <= avg,
            0 <= velocity,
            weight <= 1000,
            keep <= 1000,
            0 <= weight,
            0 <= keep,
            config.decay <= 1000,
    ;
    let total: u128 = (avg as u128) * keep * (config.decay as u128) + (velocity as u128) * weight
        * 1000;
    let r: u128 = total / 1_000_000;
    assert(r <= m) by (nonlinear_arith)
        requires
            total <= m * 1_000_000,
            r == total / 1_000_000,
    ;
    r as u64
}

/// The smoothed speed of one motion source, and when it last changed.
#[derive(Debug, Clone, Copy, PartialEq, Eq, Structural)]
pub struct SmoothingState {
    pub average: u64,
    pub last_update: u64,
}

impl SmoothingState {
    /// Starts at an average of zero.
    pub fn new(now: u64) -> (r: SmoothingState)
        ensures
            r.average == 0,
            r.last_update == now,
    {
        SmoothingState { average: 0, last_update: now }
    }

    /// Blends an accepted raw speed into the average at time `now`, and
    /// returns the new average.
    pub fn update(&mut self, config: &Config, raw: u64, now: u64) -> (r: u64)
        requires
            config.wf(),
        ensures
            r == final(self).average,
            final(self).average == smoothed(*config, old(self).average as int, raw as int),
            final(self).last_update == now,
    {
        self.average = update_avg(config, self.average, raw);
        self.last_update = now;
        self.average
    }
}

} // verus!
