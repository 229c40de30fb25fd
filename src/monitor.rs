//! The sensing side: turns device events into pointer samples, samples into
//! raw speeds, and accepted raw speeds into the smoothed speed it publishes.
use vstd::prelude::*;
use crate::models::{Config, PointerInputEvent, VelocityEvent, is_floor_sqrt, rate_product};
use crate::smoothing::{SmoothingState, smoothed};

verus! {

/// One device event, as far as pointer tracking cares.
#[derive(Debug, Clone, Copy, PartialEq, Eq, Structural)]
pub enum PointerEvent {
    /// Later position updates belong to another touch contact.
    Slot,
    /// New absolute x position.
    AbsX(i32),
    /// New absolute y position.
    AbsY(i32),
    /// All updates since the previous sync form one position.
    Sync,
    /// Anything else.
    Other,
}

/// What handling one event led to.
#[derive(Debug, Clone, Copy, PartialEq, Eq, Structural)]
pub enum MonitorOutcome {
    /// No sample was committed.
    Nothing,
    /// A sample was committed, but there is no speed for it: it is the first
    /// one, or time did not advance.
    Skipped,
    /// The raw speed was above the ceiling and was thrown away.
    Discarded(u64),
    /// The raw speed was accepted; `published` holds the new average.
    Accepted { raw: u64, published: VelocityEvent },
}

/// `needle` occurs in `hay`.
pub open spec fn contains_spec(hay: Seq<char>, needle: Seq<char>) -> bool {
    exists|i: int|
        0 <= i <= hay.len() - needle.len() && #[trigger] hay.subrange(i, i + needle.len())
            == needle
}

/// Relies on `str::contains`: true when `needle` occurs in `hay`.
#[verifier::external_body]
fn str_contains(hay: &str, needle: &str) -> (r: bool)
    ensures
        r == contains_spec(hay@, needle@),
{
    hay.contains(needle)
}

pub struct MotionMonitor {
    /// Substring that selects the device by its name.
    pub device_name: String,
    /// The last sample that a speed was measured from.
    pub last: Option<PointerInputEvent>,
    /// The position being assembled from the current burst.
    pub working: PointerInputEvent,
    /// Set once a burst turns to another touch contact.
    pub ignore_block: bool,
    pub smoothing: SmoothingState,
}

impl MotionMonitor {
    pub fn new(device_name: String) -> (r: MotionMonitor)
        ensures
            r.device_name == device_name,
            r.last is None,
            r.working == (PointerInputEvent { x: 0, y: 0, time: 0 }),
            !r.ignore_block,
            r.smoothing.average == 0,
            r.smoothing.last_update == 0,
    {
        MotionMonitor {
            device_name,
            last: None,
            working: PointerInputEvent { x: 0, y: 0, time: 0 },
            ignore_block: false,
            smoothing: SmoothingState::new(0),
        }
    }

    /// Whether a device called `name` is the one to monitor.
    pub fn accepts_device(&self, name: &str) -> (r: bool)
        ensures
            r == contains_spec(name@, self.device_name@),
    {
        str_contains(name, self.device_name.as_str())
    }

    /// Starts a new batch of events from the device.
    pub fn start_batch(&mut self)
        ensures
            !final(self).ignore_block,
            final(self).device_name == old(self).device_name,
            final(self).last == old(self).last,
            final(self).working == old(self).working,
            final(self).smoothing == old(self).smoothing,
    {
        self.ignore_block = false;
    }

    /// Handles one device event received at time `now`.
    pub fn handle_event(&mut self, config: &Config, event: PointerEvent, now: u64) -> (r:
        MonitorOutcome)
        requires
            config.wf(),
        ensures
            final(self).device_name == old(self).device_name,
            match event {
                PointerEvent::Slot => {
                    &&& final(self).ignore_block
                    &&& final(self).last == old(self).last
                    &&& final(self).working == old(self).working
                    &&& final(self).smoothing == old(self).smoothing
                    &&& r == MonitorOutcome::Nothing
                },
                PointerEvent::AbsX(v) => {
                    &&& final(self).ignore_block == old(self).ignore_block
                    &&& final(self).last == old(self).last
                    &&& final(self).working.x == if old(self).ignore_block {
                        old(self).working.x
                    } else {
                        v
                    }
                    &&& final(self).working.y == old(self).working.y
                    &&& final(self).working.time == old(self).working.time
                    &&& final(self).smoothing == old(self).smoothing
                    &&& r == MonitorOutcome::Nothing
                },
                PointerEvent::AbsY(v) => {
                    &&& final(self).ignore_block == old(self).ignore_block
                    &&& final(self).last == old(self).last
                    &&& final(self).working.x == old(self).working.x
                    &&& final(self).working.y == if old(self).ignore_block {
                        old(self).working.y
                    } else {
                        v
                    }
                    &&& final(self).working.time == old(self).working.time
                    &&& final(self).smoothing == old(self).smoothing
                    &&& r == MonitorOutcome::Nothing
                },
                PointerEvent::Other => {
                    &&& final(self).ignore_block == old(self).ignore_block
                    &&& final(self).last == old(self).last
                    &&& final(self).working == old(self).working
                    &&& final(self).smoothing == old(self).smoothing
                    &&& r == MonitorOutcome::Nothing
                },
                PointerEvent::Sync => if old(self).ignore_block {
                    &&& !final(self).ignore_block
                    &&& final(self).last == old(self).last
                    &&& final(self).working == old(self).working
                    &&& final(self).smoothing == old(self).smoothing
                    &&& r == MonitorOutcome::Nothing
                } else {
                    sync_outcome(config, *old(self), *final(self), now, r)
                },
            },
    {
        match event {
            PointerEvent::Slot => {
                self.ignore_block = true;
                MonitorOutcome::Nothing
            },
            PointerEvent::AbsX(v) => {
                if !self.ignore_block {
                    self.working.x = v;
                }
                MonitorOutcome::Nothing
            },
            PointerEvent::AbsY(v) => {
                if !self.ignore_block {
                    self.working.y = v;
                }
                MonitorOutcome::Nothing
            },
            PointerEvent::Other => MonitorOutcome::Nothing,
            PointerEvent::Sync => {
                if self.ignore_block {
                    self.ignore_block = false;
                    return MonitorOutcome::Nothing;
                }
                self.working.time = now;
                let sample: PointerInputEvent = self.working;
                let previous: PointerInputEvent = match self.last {
                    None => {
                        self.last = Some(sample);
                        return MonitorOutcome::Skipped;
                    },
                    Some(p) => p,
                };
                match sample.velocity(&previous) {
                    None => {
                        self.last = Some(sample);
                        MonitorOutcome::Skipped
                    },
                    Some(raw) => {
                        if raw > config.ceiling {
                            MonitorOutcome::Discarded(raw)
                        } else {
                            self.last = Some(sample);
                            let average: u64 = self.smoothing.update(config, raw, now);
                            MonitorOutcome::Accepted {
                                raw,
                                published: VelocityEvent::new(average, now),
                            }
                        }
                    },
                }
            },
        }
    }
}

/// A sync that ends a burst of the primary contact: the working position is
/// committed as a sample at `now`; a speed is measured against the last
/// sample when there is one and time advanced; a speed above the ceiling is
/// discarded and changes nothing else; an accepted one becomes the new
/// reference sample and is blended into the average, which is published.
pub open spec fn sync_outcome(
    config: &Config,
    pre: MotionMonitor,
    post: MotionMonitor,
    now: u64,
    r: MonitorOutcome,
) -> bool {
    let sample = PointerInputEvent { x: pre.working.x, y: pre.working.y, time: now };
    &&& !post.ignore_block
    &&& post.working == sample
    &&& match pre.last {
        None => {
            &&& post.last == Some(sample)
            &&& post.smoothing == pre.smoothing
            &&& r == MonitorOutcome::Skipped
        },
        Some(p) => if now <= p.time {
            &&& post.last == Some(sample)
            &&& post.smoothing == pre.smoothing
            &&& r == MonitorOutcome::Skipped
        } else {
            let product = rate_product(p, sample) as int;
            match r {
                MonitorOutcome::Discarded(raw) => {
                    &&& raw > config.ceiling
                    &&& is_floor_sqrt(raw as int, product)
                    &&& post.last == pre.last
                    &&& post.smoothing == pre.smoothing
                },
                MonitorOutcome::Accepted { raw, published } => {
                    &&& raw <= config.ceiling
                    &&& is_floor_sqrt(raw as int, product)
                    &&& post.last == Some(sample)
                    &&& post.smoothing.average == smoothed(
                        *config,
                        pre.smoothing.average as int,
                        raw as int,
                    )
                    &&& post.smoothing.last_update == now
                    &&& published.velocity_spec() == post.smoothing.average
                    &&& published.time_spec() == now
                },
                _ => false,
            }
        },
    }
}

} // verus!
