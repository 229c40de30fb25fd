//! Time-bounded capture of observed events for offline inspection.
use vstd::prelude::*;
use std::sync::mpsc::Sender;

verus! {

/// One observed event; times are microseconds on the monotonic clock.
#[derive(Debug, Clone, Copy, PartialEq, Eq, Structural)]
pub enum LogEvent {
    /// A committed pointer sample.
    PointerInput { x: i32, y: i32, time: u64 },
    /// An accepted raw speed.
    Velocity { velocity: u64, time: u64 },
    /// A raw device event: its type, code and value.
    Device { time: u64, event_type: u16, code: u16, value: i32 },
}

/// The recorded events, oldest first.
pub struct Capture {
    events: Vec<LogEvent>,
}

impl Capture {
    pub closed spec fn events_spec(&self) -> Seq<LogEvent> {
        self.events@
    }

    pub fn new() -> (r: Capture)
        ensures
            r.events_spec() == Seq::<LogEvent>::empty(),
    {
        Capture { events: Vec::new() }
    }

    pub fn push(&mut self, event: LogEvent)
        ensures
            final(self).events_spec() == old(self).events_spec().push(event),
    {
        self.events.push(event);
    }

    pub fn events(&self) -> (r: &Vec<LogEvent>)
        ensures
            r@ == self.events_spec(),
    {
        &self.events
    }
}

#[verifier::external_type_specification]
#[verifier::external_body]
#[verifier::reject_recursive_types(T)]
pub struct ExSender<T>(Sender<T>);

/// Relies on `Sender::send`: hands `event` to the receiving side; false when
/// that side is gone.
#[verifier::external_body]
fn send_event(emitter: &Sender<LogEvent>, event: LogEvent) -> (r: bool) {
    emitter.send(event).is_ok()
}

/// What became of an emitted event.
#[derive(Debug, Clone, Copy, PartialEq, Eq, Structural)]
pub enum EmitOutcome {
    /// The capture window had elapsed; nothing was sent.
    Dropped,
    /// The event was handed to the channel.
    Sent,
    /// The event was handed to the channel, but the receiving side is gone.
    Disconnected,
}

/// The sending side of a capture: forwards events while the capture window
/// is open, and drops them once it has elapsed.
pub struct CaptureEmitter {
    start: u64,
    expires: u64,
    emitter: Sender<LogEvent>,
}

impl CaptureEmitter {
    /// When the window opened.
    pub closed spec fn start_spec(&self) -> u64 {
        self.start
    }

    /// How long the window stays open.
    pub closed spec fn expires_spec(&self) -> u64 {
        self.expires
    }

    /// The window is still open at time `now`.
    pub open spec fn open_at(&self, now: u64) -> bool {
        !(now > self.start_spec() && now - self.start_spec() > self.expires_spec())
    }

    pub fn new(start: u64, expires: u64, emitter: Sender<LogEvent>) -> (r: CaptureEmitter)
        ensures
            r.start_spec() == start,
            r.expires_spec() == expires,
    {
        CaptureEmitter { start, expires, emitter }
    }

    /// Whether an event observed at `now` is still recorded.
    pub fn is_open(&self, now: u64) -> (r: bool)
        ensures
            r == self.open_at(now),
    {
        !(now > self.start && now - self.start > self.expires)
    }

    /// The event that is to be forwarded when `event` is observed at `now`:
    /// the event itself while the window is open, nothing once it has
    /// elapsed.
    pub fn accept(&self, event: LogEvent, now: u64) -> (r: Option<LogEvent>)
        ensures
            r == (if self.open_at(now) {
                Some(event)
            } else {
                None
            }),
    {
        if self.is_open(now) {
            Some(event)
        } else {
            None
        }
    }

    /// Forwards `event`, observed at `now`, while the window is open: it is
    /// dropped exactly when the window has elapsed; otherwise it is handed
    /// to the channel, which may find the receiving side gone.
    pub fn emit(&self, event: LogEvent, now: u64) -> (r: EmitOutcome)
        ensures
            (r == EmitOutcome::Dropped) <==> !self.open_at(now),
    {
        match self.accept(event, now) {
            None => EmitOutcome::Dropped,
            Some(accepted) => if send_event(&self.emitter, accepted) {
                EmitOutcome::Sent
            } else {
                EmitOutcome::Disconnected
            },
        }
    }

    /// A second handle on the same channel and window.
    pub fn duplicate(&self) -> (r: CaptureEmitter)
        ensures
            r.start_spec() == self.start_spec(),
            r.expires_spec() == self.expires_spec(),
    {
        CaptureEmitter { start: self.start, expires: self.expires, emitter: clone_sender(&self.emitter) }
    }
}

/// Relies on `Sender::clone`: another handle on the same channel.
#[verifier::external_body]
fn clone_sender(emitter: &Sender<LogEvent>) -> (r: Sender<LogEvent>) {
    emitter.clone()
}

} // verus!
