//! Plain data shared by the pipeline stages, and the speed estimate taken
//! from two consecutive pointer samples.
//!
//! Times are microseconds on one monotonic clock; speeds are whole device
//! units per second.
use vstd::prelude::*;

verus! {

/// Microseconds in one second.
pub const MICROS_PER_SECOND: u64 = 1_000_000;

/// Weights and the decay factor are fractions expressed in thousandths.
pub const PERMILLE: u64 = 1000;

/// Tuning of the whole pipeline.
#[derive(Debug, Clone)]
pub struct Config {
    /// Length of the event-capture window, in seconds.
    pub capture_seconds: u64,
    /// Side of the overlay's square bounding box.
    pub window_size: i32,
    /// Substring that selects the input device by its name.
    pub device_name: String,
    /// Bleed-off factor applied to the average on every update, in thousandths.
    pub decay: u64,
    /// Speed normalisation constant: the blend weight is `raw / accel`.
    pub accel: u64,
    /// Lower clamp of the blend weight, in thousandths.
    pub accel_decay: u64,
    /// Upper clamp of the blend weight, in thousandths.
    pub accel_inc: u64,
    /// Speed above which a hidden indicator is shown.
    pub threshold: u64,
    /// Speed below which a shown indicator is hidden again.
    pub hide_threshold: u64,
    /// Raw speeds above this are sensor glitches and are discarded.
    pub ceiling: u64,
    /// A published speed older than this counts as no motion.
    pub stale_micros: u64,
}

impl Config {
    /// The constraints that the smoothing and visibility arithmetic rely on.
    pub open spec fn wf(&self) -> bool {
        &&& self.decay <= PERMILLE
        &&& self.accel > 0
        &&& self.accel_decay <= self.accel_inc
        &&& self.accel_inc <= PERMILLE
        &&& self.threshold < self.hide_threshold
    }

    /// Whether the configuration meets `wf`.
    pub fn is_valid(&self) -> (r: bool)
        ensures
            r == self.wf(),
    {
        self.decay <= PERMILLE && self.accel > 0 && self.accel_decay <= self.accel_inc
            && self.accel_inc <= PERMILLE && self.threshold < self.hide_threshold
    }

    pub fn new() -> (r: Config)
        ensures
            r.wf(),
            r.capture_seconds == 5,
            r.window_size == 200,
            r.device_name@ == "Apple"@,
            r.decay == 980,
            r.accel == 1500,
            r.accel_decay == 100,
            r.accel_inc == 300,
            r.threshold == 1500,
            r.hide_threshold == 1800,
            r.ceiling == 5000,
            r.stale_micros == 250_000,
    {
        Config {
            capture_seconds: 5,
            window_size: 200,
            decay: 980,
            accel: 1500,
            accel_decay: 100,
            accel_inc: 300,
            threshold: 1500,
            hide_threshold: 1800,
            ceiling: 5000,
            stale_micros: 250_000,
            device_name: "Apple".to_owned(),
        }
    }
}

/// A position in device-native units.
#[derive(Debug, Clone, Copy, PartialEq, Eq, Structural)]
pub struct Position32 {
    pub x: i32,
    pub y: i32,
}

impl Position32 {
    pub fn new(x: i32, y: i32) -> (r: Position32)
        ensures
            r.x == x,
            r.y == y,
    {
        Position32 { x, y }
    }
}

/// Where the overlay's top-left corner stands, for a square window of side
/// `size` that is kept centred on the pointer.
#[derive(Debug, Clone, Copy, PartialEq, Eq, Structural)]
pub struct Placement {
    pub position: Position32,
    pub size: u32,
}

impl Placement {
    /// A window of side `size` at the origin.
    pub fn new(size: u32) -> (r: Placement)
        ensures
            r.position == (Position32 { x: 0, y: 0 }),
            r.size == size,
    {
        Placement { position: Position32::new(0, 0), size }
    }

    /// Centres the window on `center`. Returns the new top-left corner when
    /// the window has to move, and nothing when it already stands there or
    /// the corner lies outside the coordinate range.
    pub fn center_on(&mut self, center: Position32) -> (r: Option<Position32>)
        ensures
            final(self).size == old(self).size,
            ({
                let half = (old(self).size / 2) as int;
                let x = center.x - half;
                let y = center.y - half;
                let fits = i32::MIN <= x && i32::MIN <= y;
                let target = Position32 { x: x as i32, y: y as i32 };
                &&& (fits && target != old(self).position) ==> r == Some(target)
                    && final(self).position == target
                &&& !(fits && target != old(self).position) ==> r is None && final(self).position
                    == old(self).position
            }),
    {
        let half: i64 = (self.size / 2) as i64;
        let x: i64 = center.x as i64 - half;
        let y: i64 = center.y as i64 - half;
        if x < i32::MIN as i64 || y < i32::MIN as i64 {
            return None;
        }
        let target: Position32 = Position32::new(x as i32, y as i32);
        if target == self.position {
            return None;
        }
        self.position = target;
        Some(target)
    }
}

/// The latest smoothed speed, with the time at which it was computed.
#[derive(Debug, Clone, Copy, PartialEq, Eq, Structural)]
pub struct VelocityEvent {
    velocity: u64,
    time: u64,
}

impl VelocityEvent {
    pub closed spec fn velocity_spec(&self) -> u64 {
        self.velocity
    }

    pub closed spec fn time_spec(&self) -> u64 {
        self.time
    }

    /// Whether the value is older than `window` at time `now`.
    pub open spec fn expired_spec(&self, now: u64, window: u64) -> bool {
        now > self.time_spec() && now - self.time_spec() > window
    }

    pub fn new(velocity: u64, time: u64) -> (r: VelocityEvent)
        ensures
            r.velocity_spec() == velocity,
            r.time_spec() == time,
    {
        VelocityEvent { velocity, time }
    }

    pub fn velocity(&self) -> (r: u64)
        ensures
            r == self.velocity_spec(),
    {
        self.velocity
    }

    pub fn time(&self) -> (r: u64)
        ensures
            r == self.time_spec(),
    {
        self.time
    }

    /// Whether more than `window` microseconds have passed since the value
    /// was published.
    pub fn expired(&self, now: u64, window: u64) -> (r: bool)
        ensures
            r == self.expired_spec(now, window),
    {
        now > self.time && now - self.time > window
    }

    /// The speed that downstream stages consume at time `now`: the stored
    /// value while it is fresh, zero once it is stale.
    pub fn effective_velocity(&self, now: u64, window: u64) -> (r: u64)
        ensures
            self.expired_spec(now, window) ==> r == 0,
            !self.expired_spec(now, window) ==> r == self.velocity_spec(),
    {
        if self.expired(now, window) {
            0
        } else {
            self.velocity
        }
    }
}

/// A committed pointer position and the time of the sync that committed it.
#[derive(Debug, Clone, Copy, PartialEq, Eq, Structural)]
pub struct PointerInputEvent {
    pub x: i32,
    pub y: i32,
    pub time: u64,
}

pub open spec fn abs_diff(a: i32, b: i32) -> nat {
    if a >= b {
        (a - b) as nat
    } else {
        (b - a) as nat
    }
}

/// `|vx * vy|` in units² per second², rounded down, where
/// `vx = dx / dt` and `vy = dy / dt` with `dt` in microseconds.
pub open spec fn rate_product(prev: PointerInputEvent, cur: PointerInputEvent) -> nat
    recommends
        prev.time < cur.time,
{
    let dt = (cur.time - prev.time) as nat;
    abs_diff(cur.x, prev.x) * abs_diff(cur.y, prev.y) * 1_000_000_000_000 / dt / dt
}

/// `r` is the square root of `n`, rounded down.
pub open spec fn is_floor_sqrt(r: int, n: int) -> bool {
    0 <= r && r * r <= n < (r + 1) * (r + 1)
}

/// Square root rounded down, by bisection.
pub fn floor_sqrt(n: u128) -> (r: u64)
    ensures
        is_floor_sqrt(r as int, n as int),
{
    let mut lo: u128 = 0;
    let mut hi: u128 = 0x1_0000_0000_0000_0000;
    assert(n < hi * hi) by (nonlinear_arith)
        requires
            hi == 0x1_0000_0000_0000_0000u128,
            n <= u128::MAX,
    ;
    while hi - lo > 1
        invariant
            lo < hi <= 0x1_0000_0000_0000_0000u128,
            lo * lo <= n,
            n < hi * hi,
        decreases hi - lo,
    {
        let mid: u128 = lo + (hi - lo) / 2;
        assert(mid * mid <= 0xFFFF_FFFF_FFFF_FFFFu128 * 0xFFFF_FFFF_FFFF_FFFFu128) by (
        nonlinear_arith)
            requires
                mid < 0x1_0000_0000_0000_0000u128,
        ;
        if mid * mid <= n {
            lo = mid;
        } else {
            hi = mid;
        }
    }
    assert(hi == lo + 1);
    lo as u64
}

impl PointerInputEvent {
    /// The geometric speed `sqrt(|vx * vy|)` between `previous` and this
    /// sample, rounded down; nothing when time did not advance.
    pub fn velocity(&self, previous: &PointerInputEvent) -> (r: Option<u64>)
        ensures
            r is None <==> self.time <= previous.time,
            r matches Some(s) ==> is_floor_sqrt(s as int, rate_product(*previous, *self) as int),
    {
        if self.time <= previous.time {
            return None;
        }
        let dt: u64 = self.time - previous.time;
        let dx: i64 = self.x as i64 - previous.x as i64;
        let dy: i64 = self.y as i64 - previous.y as i64;
        let adx: u64 = if dx < 0 { (-dx) as u64 } else { dx as u64 };
        let ady: u64 = if dy < 0 { (-dy) as u64 } else { dy as u64 };
        assert(adx == abs_diff(self.x, previous.x));
        assert(ady == abs_diff(self.y, previous.y));
        assert(adx * ady * 1_000_000_000_000 <= 0xFFFF_FFFFu64 * 0xFFFF_FFFFu64 * 1_000_000_000_000)
            by (nonlinear_arith)
            requires
                adx <= 0xFFFF_FFFFu64,
                ady <= 0xFFFF_FFFFu64,
        ;
        let product: u128 = (adx as u128) * (ady as u128) * 1_000_000_000_000u128;
        let squared: u128 = product / (dt as u128) / (dt as u128);
        Some(floor_sqrt(squared))
    }
}

} // verus!
