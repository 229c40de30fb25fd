//! The hysteresis switch that decides whether the indicator is shown, and
//! the presentation tick that drives it.
use vstd::prelude::*;
use crate::animations::{Animation, RenderParams};
use crate::models::{Config, VelocityEvent};

verus! {

#[derive(Debug, Clone, Copy, PartialEq, Eq, Structural)]
pub enum Visibility {
    Hidden,
    Shown,
}

/// The state after seeing `speed` in `state`: a hidden indicator is shown
/// when the speed exceeds `show_at`; a shown one is hidden when it falls
/// below `hide_at`.
pub open spec fn next_visibility(state: Visibility, show_at: int, hide_at: int, speed: int) -> Visibility {
    match state {
        Visibility::Hidden => if speed > show_at {
            Visibility::Shown
        } else {
            Visibility::Hidden
        },
        Visibility::Shown => if speed < hide_at {
            Visibility::Hidden
        } else {
            Visibility::Shown
        },
    }
}

/// The threshold that `state` compares the speed against.
pub open spec fn threshold_in_effect(state: Visibility, show_at: int, hide_at: int) -> int {
    match state {
        Visibility::Hidden => show_at,
        Visibility::Shown => hide_at,
    }
}

/// `max(0, speed - threshold)`.
pub open spec fn excess(speed: int, threshold: int) -> int {
    if speed > threshold {
        speed - threshold
    } else {
        0
    }
}

/// The state after seeing each speed of `speeds` in turn, from `state`.
pub open spec fn run_visibility(state: Visibility, show_at: int, hide_at: int, speeds: Seq<u64>) -> Visibility
    decreases speeds.len(),
{
    if speeds.len() == 0 {
        state
    } else {
        run_visibility(
            next_visibility(state, show_at, hide_at, speeds[0] as int),
            show_at,
            hide_at,
            speeds.drop_first(),
        )
    }
}

#[derive(Debug, Clone, Copy, PartialEq, Eq, Structural)]
pub struct VisibilityController {
    pub state: Visibility,
    pub show_threshold: u64,
    pub hide_threshold: u64,
}

impl VisibilityController {
    pub open spec fn wf(&self) -> bool {
        self.show_threshold < self.hide_threshold
    }

    /// Starts hidden, with the thresholds of `config`.
    pub fn new(config: &Config) -> (r: VisibilityController)
        ensures
            r.state == Visibility::Hidden,
            r.show_threshold == config.threshold,
            r.hide_threshold == config.hide_threshold,
    {
        VisibilityController {
            state: Visibility::Hidden,
            show_threshold: config.threshold,
            hide_threshold: config.hide_threshold,
        }
    }

    /// Feeds one speed: moves to the next state and returns how far the
    /// speed exceeds the threshold that the decision used.
    pub fn step(&mut self, speed: u64) -> (r: u64)
        ensures
            final(self).show_threshold == old(self).show_threshold,
            final(self).hide_threshold == old(self).hide_threshold,
            final(self).state == next_visibility(
                old(self).state,
                old(self).show_threshold as int,
                old(self).hide_threshold as int,
                speed as int,
            ),
            r == excess(
                speed as int,
                threshold_in_effect(
                    old(self).state,
                    old(self).show_threshold as int,
                    old(self).hide_threshold as int,
                ),
            ),
    {
        let threshold: u64 = match self.state {
            Visibility::Hidden => self.show_threshold,
            Visibility::Shown => self.hide_threshold,
        };
        self.state = match self.state {
            Visibility::Hidden => if speed > self.show_threshold {
                Visibility::Shown
            } else {
                Visibility::Hidden
            },
            Visibility::Shown => if speed < self.hide_threshold {
                Visibility::Hidden
            } else {
                Visibility::Shown
            },
        };
        if speed > threshold {
            speed - threshold
        } else {
            0
        }
    }

    pub fn is_shown(&self) -> (r: bool)
        ensures
            r == (self.state == Visibility::Shown),
    {
        matches!(self.state, Visibility::Shown)
    }
}

/// Once shown, the indicator stays shown through any sequence of speeds,
/// however it oscillates, that never falls below the hide_at threshold; the
/// first speed below it hides the indicator.
pub proof fn lemma_no_flicker(show_at: int, hide_at: int, speeds: Seq<u64>, low: u64)
    requires
        forall|i: int| 0 <= i < speeds.len() ==> speeds[i] >= hide_at,
        low < hide_at,
    ensures
        run_visibility(Visibility::Shown, show_at, hide_at, speeds) == Visibility::Shown,
        next_visibility(Visibility::Shown, show_at, hide_at, low as int) == Visibility::Hidden,
    decreases speeds.len(),
{
    if speeds.len() > 0 {
        let rest = speeds.drop_first();
        assert forall|i: int| 0 <= i < rest.len() implies rest[i] >= hide_at by {
            assert(rest[i] == speeds[i + 1]);
        }
        lemma_no_flicker(show_at, hide_at, rest, low);
    }
}

/// Feeding `a` and then `b` is feeding `a + b`.
proof fn lemma_run_concat(state: Visibility, show_at: int, hide_at: int, a: Seq<u64>, b: Seq<u64>)
    ensures
        run_visibility(state, show_at, hide_at, a + b) == run_visibility(
            run_visibility(state, show_at, hide_at, a),
            show_at,
            hide_at,
            b,
        ),
    decreases a.len(),
{
    if a.len() == 0 {
        assert(a + b =~= b);
    } else {
        assert((a + b)[0] == a[0]);
        assert((a + b).drop_first() =~= a.drop_first() + b);
        lemma_run_concat(
            next_visibility(state, show_at, hide_at, a[0] as int),
            show_at,
            hide_at,
            a.drop_first(),
            b,
        );
    }
}

/// From shown, a sequence of speeds whose last one alone is below the hide
/// threshold makes exactly one transition: the indicator stays shown after
/// every earlier speed, and is hidden after the last one.
pub proof fn lemma_single_transition(show_at: int, hide_at: int, speeds: Seq<u64>)
    requires
        speeds.len() >= 1,
        forall|i: int| 0 <= i < speeds.len() - 1 ==> speeds[i] >= hide_at,
        speeds.last() < hide_at,
    ensures
        forall|k: int|
            0 <= k < speeds.len() ==> #[trigger] run_visibility(
                Visibility::Shown,
                show_at,
                hide_at,
                speeds.take(k),
            ) == Visibility::Shown,
        run_visibility(Visibility::Shown, show_at, hide_at, speeds) == Visibility::Hidden,
{
    let n = speeds.len() - 1;
    assert forall|k: int| 0 <= k < speeds.len() implies #[trigger] run_visibility(
        Visibility::Shown,
        show_at,
        hide_at,
        speeds.take(k),
    ) == Visibility::Shown by {
        let prefix = speeds.take(k);
        assert forall|i: int| 0 <= i < prefix.len() implies prefix[i] >= hide_at by {
            assert(prefix[i] == speeds[i]);
        }
        lemma_no_flicker(show_at, hide_at, prefix, speeds.last());
    }
    let tail = seq![speeds.last()];
    assert(speeds =~= speeds.take(n) + tail);
    lemma_run_concat(Visibility::Shown, show_at, hide_at, speeds.take(n), tail);
    assert(tail.drop_first() =~= Seq::<u64>::empty());
    assert(run_visibility(Visibility::Hidden, show_at, hide_at, tail.drop_first())
        == Visibility::Hidden);
}

/// Microseconds between ticks while the indicator is hidden (20 per second).
pub const HIDDEN_TICK_MICROS: u64 = 50_000;

/// Microseconds between ticks while the indicator is shown (120 per second).
pub const SHOWN_TICK_MICROS: u64 = 8_000;

/// Least time between two drawn frames (30 per second).
pub const FRAME_MICROS: u64 = 33_000;

/// What the presentation loop does after one tick.
#[derive(Debug, Clone, Copy, PartialEq, Eq, Structural)]
pub struct UiAction {
    /// Whether the indicator is to be shown.
    pub visible: bool,
    /// A frame to draw now, if one is due.
    pub redraw: Option<RenderParams>,
    /// How long to wait before the next tick.
    pub sleep_micros: u64,
}

/// The presentation side: reads the latest published speed on each tick,
/// gates it for staleness, switches visibility and picks the frame.
pub struct Presenter {
    pub controller: VisibilityController,
    pub animation: Animation,
    pub stale_micros: u64,
    pub last_render: u64,
}

impl Presenter {
    pub open spec fn wf(&self) -> bool {
        self.controller.wf() && self.animation.wf()
    }

    /// A hidden presenter for a box of side `max_size`.
    pub fn new(config: &Config, max_size: u32, now: u64) -> (r: Presenter)
        requires
            config.wf(),
            32 <= max_size <= i16::MAX,
        ensures
            r.wf(),
            r.controller.state == Visibility::Hidden,
            r.controller.show_threshold == config.threshold,
            r.controller.hide_threshold == config.hide_threshold,
            r.animation.max_size_spec() == max_size,
            r.stale_micros == config.stale_micros,
            r.last_render == now,
    {
        Presenter {
            controller: VisibilityController::new(config),
            animation: Animation::new(max_size),
            stale_micros: config.stale_micros,
            last_render: now,
        }
    }

    /// One tick at time `now`, with `latest` the last published speed.
    pub fn tick(&mut self, latest: VelocityEvent, now: u64) -> (r: UiAction)
        requires
            old(self).wf(),
        ensures
            final(self).wf(),
            final(self).animation == old(self).animation,
            final(self).stale_micros == old(self).stale_micros,
            ({
                let speed = if latest.expired_spec(now, old(self).stale_micros) {
                    0
                } else {
                    latest.velocity_spec() as int
                };
                let c = old(self).controller;
                let shown = final(self).controller.state == Visibility::Shown;
                let due = now >= old(self).last_render && now - old(self).last_render
                    > FRAME_MICROS;
                &&& final(self).controller.show_threshold == c.show_threshold
                &&& final(self).controller.hide_threshold == c.hide_threshold
                &&& final(self).controller.state == next_visibility(
                    c.state,
                    c.show_threshold as int,
                    c.hide_threshold as int,
                    speed,
                )
                &&& r.visible == shown
                &&& r.sleep_micros == if shown {
                    SHOWN_TICK_MICROS
                } else {
                    HIDDEN_TICK_MICROS
                }
                &&& (shown && due) ==> r.redraw == Some(
                    old(self).animation.render_spec(
                        excess(
                            speed,
                            threshold_in_effect(
                                c.state,
                                c.show_threshold as int,
                                c.hide_threshold as int,
                            ),
                        ),
                    ),
                ) && final(self).last_render == now
                &&& !(shown && due) ==> r.redraw is None && final(self).last_render
                    == old(self).last_render
            }),
    {
        let speed: u64 = latest.effective_velocity(now, self.stale_micros);
        let effective: u64 = self.controller.step(speed);
        let shown: bool = self.controller.is_shown();
        let due: bool = now >= self.last_render && now - self.last_render > FRAME_MICROS;
        let redraw: Option<RenderParams> = if shown && due {
            self.last_render = now;
            Some(self.animation.play(effective))
        } else {
            None
        };
        let sleep_micros: u64 = if shown {
            SHOWN_TICK_MICROS
        } else {
            HIDDEN_TICK_MICROS
        };
        UiAction { visible: shown, redraw, sleep_micros }
    }
}

} // verus!
