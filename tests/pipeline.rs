use dgsmousereveal::animations::{Animation, ArcGeometry, FRAME_COUNT};
use dgsmousereveal::chain::{ChainContext, PipeFactory};
use dgsmousereveal::logging::{Capture, CaptureEmitter, EmitOutcome, LogEvent};
use dgsmousereveal::models::{Config, Placement, PointerInputEvent, Position32, VelocityEvent};
use dgsmousereveal::monitor::{MonitorOutcome, MotionMonitor, PointerEvent};
use dgsmousereveal::smoothing::{update_avg, SmoothingState};
use dgsmousereveal::visibility::{Presenter, Visibility, VisibilityController};

fn sample(x: i32, y: i32, time: u64) -> PointerInputEvent {
    PointerInputEvent { x, y, time }
}

fn commit(m: &mut MotionMonitor, cfg: &Config, x: i32, y: i32, now: u64) -> MonitorOutcome {
    m.handle_event(cfg, PointerEvent::AbsX(x), now);
    m.handle_event(cfg, PointerEvent::AbsY(y), now);
    m.handle_event(cfg, PointerEvent::Sync, now)
}

#[test]
fn diagonal_motion_gives_geometric_speed() {
    let v = sample(100, 100, 100_000).velocity(&sample(0, 0, 0));
    assert_eq!(v, Some(1000));
}

#[test]
fn single_axis_motion_gives_zero() {
    let v = sample(100, 0, 100_000).velocity(&sample(0, 0, 0));
    assert_eq!(v, Some(0));
}

#[test]
fn speed_rounds_down() {
    // |vx * vy| = 3 * 1 units²/s² over one second: sqrt(3) rounds to 1.
    let v = sample(3, 1, 1_000_000).velocity(&sample(0, 0, 0));
    assert_eq!(v, Some(1));
    // Negative directions count by magnitude: 200 * 50 / 0.01² -> 10^8 -> 10^4.
    let v = sample(-200, 50, 10_000).velocity(&sample(0, 0, 0));
    assert_eq!(v, Some(10_000));
}

#[test]
fn degenerate_time_gives_nothing() {
    assert_eq!(sample(5, 5, 10).velocity(&sample(0, 0, 10)), None);
    assert_eq!(sample(5, 5, 9).velocity(&sample(0, 0, 10)), None);
    assert!(sample(5, 5, 11).velocity(&sample(0, 0, 10)).is_some());
}

#[test]
fn extreme_coordinates_do_not_overflow() {
    let v = sample(i32::MAX, i32::MAX, 1).velocity(&sample(i32::MIN, i32::MIN, 0));
    // (2^32 - 1)² * 10^12 per µs²: the root is (2^32 - 1) * 10^6.
    assert_eq!(v, Some(4_294_967_295_000_000));
}

#[test]
fn config_defaults() {
    let c = Config::new();
    assert_eq!(c.capture_seconds, 5);
    assert_eq!(c.window_size, 200);
    assert_eq!(c.device_name, "Apple");
    assert_eq!(c.decay, 980);
    assert_eq!(c.accel, 1500);
    assert_eq!(c.accel_decay, 100);
    assert_eq!(c.accel_inc, 300);
    assert_eq!(c.threshold, 1500);
    assert_eq!(c.hide_threshold, 1800);
    assert_eq!(c.ceiling, 5000);
    assert_eq!(c.stale_micros, 250_000);
    assert!(c.is_valid());
    let mut bad = c.clone();
    bad.hide_threshold = bad.threshold;
    assert!(!bad.is_valid());
    let mut bad = c.clone();
    bad.accel = 0;
    assert!(!bad.is_valid());
}

#[test]
fn position_new_keeps_coordinates() {
    let p = Position32::new(-3, 7);
    assert_eq!(p.x, -3);
    assert_eq!(p.y, 7);
}

#[test]
fn smoothing_uses_upper_weight_for_fast_input() {
    let c = Config::new();
    // weight = clamp(3000 / 1500, 0.1, 0.3) = 0.3:
    // 1000 * 0.7 * 0.98 + 3000 * 0.3 = 686 + 900.
    assert_eq!(update_avg(&c, 1000, 3000), 1586);
}

#[test]
fn smoothing_uses_lower_weight_for_slow_input() {
    let c = Config::new();
    // weight = 0.1: 1000 * 0.9 * 0.98 = 882.
    assert_eq!(update_avg(&c, 1000, 0), 882);
}

#[test]
fn smoothing_uses_proportional_weight_in_between() {
    let c = Config::new();
    // weight = 300 / 1500 = 0.2: 1000 * 0.8 * 0.98 + 300 * 0.2 = 784 + 60.
    assert_eq!(update_avg(&c, 1000, 300), 844);
}

#[test]
fn smoothing_state_records_update() {
    let c = Config::new();
    let mut s = SmoothingState::new(0);
    assert_eq!(s.update(&c, 1000, 42), 300);
    assert_eq!(s.average, 300);
    assert_eq!(s.last_update, 42);
}

#[test]
fn outlier_is_discarded_and_average_kept() {
    let c = Config::new();
    let mut m = MotionMonitor::new(String::from("Apple"));
    assert_eq!(commit(&mut m, &c, 0, 0, 0), MonitorOutcome::Skipped);
    match commit(&mut m, &c, 100, 100, 100_000) {
        MonitorOutcome::Accepted { raw, published } => {
            assert_eq!(raw, 1000);
            assert_eq!(published.velocity(), 300);
            assert_eq!(published.time(), 100_000);
        }
        other => panic!("unexpected {:?}", other),
    }
    assert_eq!(m.smoothing.average, 300);
    // 600 units on each axis in 0.1 s: a raw speed of 6000, above the ceiling.
    assert_eq!(commit(&mut m, &c, 700, 700, 200_000), MonitorOutcome::Discarded(6000));
    assert_eq!(m.smoothing.average, 300);
    assert_eq!(m.last, Some(sample(100, 100, 100_000)));
}

#[test]
fn secondary_contact_burst_is_ignored() {
    let c = Config::new();
    let mut m = MotionMonitor::new(String::from("Apple"));
    commit(&mut m, &c, 10, 20, 0);
    assert_eq!(m.handle_event(&c, PointerEvent::Slot, 5), MonitorOutcome::Nothing);
    m.handle_event(&c, PointerEvent::AbsX(999), 5);
    m.handle_event(&c, PointerEvent::AbsY(999), 5);
    assert_eq!(m.handle_event(&c, PointerEvent::Sync, 5), MonitorOutcome::Nothing);
    assert!(!m.ignore_block);
    assert_eq!(m.working, sample(10, 20, 0));
    assert_eq!(m.last, Some(sample(10, 20, 0)));
}

#[test]
fn unchanged_axis_carries_forward() {
    let c = Config::new();
    let mut m = MotionMonitor::new(String::from("Apple"));
    commit(&mut m, &c, 10, 20, 0);
    m.handle_event(&c, PointerEvent::AbsX(50), 10);
    assert_eq!(m.handle_event(&c, PointerEvent::Other, 10), MonitorOutcome::Nothing);
    match m.handle_event(&c, PointerEvent::Sync, 100_000) {
        MonitorOutcome::Accepted { raw, .. } => assert_eq!(raw, 0),
        other => panic!("unexpected {:?}", other),
    }
    assert_eq!(m.last, Some(sample(50, 20, 100_000)));
}

#[test]
fn repeated_timestamp_is_skipped() {
    let c = Config::new();
    let mut m = MotionMonitor::new(String::from("Apple"));
    commit(&mut m, &c, 0, 0, 100);
    assert_eq!(commit(&mut m, &c, 5, 5, 100), MonitorOutcome::Skipped);
    assert_eq!(m.smoothing.average, 0);
}

#[test]
fn start_batch_clears_ignore_flag() {
    let c = Config::new();
    let mut m = MotionMonitor::new(String::from("Apple"));
    m.handle_event(&c, PointerEvent::Slot, 0);
    assert!(m.ignore_block);
    m.start_batch();
    assert!(!m.ignore_block);
}

#[test]
fn new_monitor_starts_empty() {
    let m = MotionMonitor::new(String::from("Apple"));
    assert_eq!(m.device_name, "Apple");
    assert_eq!(m.last, None);
    assert_eq!(m.working, sample(0, 0, 0));
    assert!(!m.ignore_block);
    assert_eq!(m.smoothing, SmoothingState::new(0));
}

#[test]
fn device_selected_by_substring() {
    let m = MotionMonitor::new(String::from("Apple"));
    assert!(m.accepts_device("Apple Internal Keyboard / Trackpad"));
    assert!(m.accepts_device("Magic Apple"));
    assert!(!m.accepts_device("Logitech USB Receiver"));
    assert!(!m.accepts_device("App"));
}

#[test]
fn hidden_to_shown_and_back() {
    let c = Config::new();
    let mut v = VisibilityController::new(&c);
    assert_eq!(v.state, Visibility::Hidden);
    assert_eq!(v.step(1501), 1);
    assert_eq!(v.state, Visibility::Shown);
    assert_eq!(v.step(1600), 0);
    assert_eq!(v.state, Visibility::Hidden);
}

#[test]
fn hidden_stays_hidden_at_threshold() {
    let c = Config::new();
    let mut v = VisibilityController::new(&c);
    assert_eq!(v.step(1500), 0);
    assert_eq!(v.state, Visibility::Hidden);
}

#[test]
fn shown_does_not_flicker_above_hide_threshold() {
    let c = Config::new();
    let mut v = VisibilityController::new(&c);
    v.step(3000);
    for s in [1800u64, 2500, 1900, 1800, 4000, 1801] {
        v.step(s);
        assert_eq!(v.state, Visibility::Shown);
        assert!(v.is_shown());
    }
    assert_eq!(v.step(2000), 200);
    assert_eq!(v.step(1799), 0);
    assert_eq!(v.state, Visibility::Hidden);
}

#[test]
fn stale_speed_counts_as_zero() {
    let e = VelocityEvent::new(2000, 1_000);
    assert_eq!(e.effective_velocity(251_000, 250_000), 2000);
    assert!(!e.expired(251_000, 250_000));
    assert_eq!(e.effective_velocity(251_001, 250_000), 0);
    assert!(e.expired(251_001, 250_000));
}

#[test]
fn animation_frames_grow() {
    let a = Animation::new(200);
    assert_eq!(a.frame_count(), FRAME_COUNT);
    assert_eq!(
        a.frame(0),
        ArcGeometry { x: 100, y: 100, width: 0, height: 0, angle1: 0, angle2: 23040 }
    );
    // span = 200 - (100 - 16) = 116.
    assert_eq!(
        a.frame(50),
        ArcGeometry { x: 71, y: 71, width: 58, height: 58, angle1: 0, angle2: 23040 }
    );
    assert_eq!(
        a.frame(99),
        ArcGeometry { x: 43, y: 43, width: 114, height: 114, angle1: 0, angle2: 23040 }
    );
    let mut prev: u16 = 0;
    for i in 0..a.frame_count() {
        let f = a.frame(i);
        assert!(f.width >= prev);
        prev = f.width;
    }
}

#[test]
fn render_params_values() {
    let a = Animation::new(200);
    let p = a.play(0);
    assert_eq!((p.frame_index, p.color_intensity, p.alpha, p.stroke_width), (0, 0, 0, 1));
    let p = a.play(10);
    assert_eq!((p.frame_index, p.color_intensity, p.alpha, p.stroke_width), (1, 12, 2, 1));
    let p = a.play(100);
    assert_eq!((p.frame_index, p.color_intensity, p.alpha, p.stroke_width), (10, 125, 20, 3));
    let p = a.play(300);
    assert_eq!((p.frame_index, p.color_intensity, p.alpha, p.stroke_width), (30, 255, 60, 10));
    let p = a.play(u64::MAX);
    assert_eq!((p.frame_index, p.color_intensity, p.alpha, p.stroke_width), (99, 255, 200, 84));
}

#[test]
fn frame_index_is_monotone_and_bounded() {
    let a = Animation::new(200);
    let mut prev = a.play(0);
    for s in (0u64..3000).step_by(7) {
        let p = a.play(s);
        assert!(p.frame_index >= prev.frame_index);
        assert!(p.frame_index <= FRAME_COUNT - 1);
        assert!(p.color_intensity >= prev.color_intensity);
        assert!(p.alpha >= prev.alpha);
        assert!(p.stroke_width >= prev.stroke_width);
        prev = p;
    }
}

#[test]
fn play_is_idempotent() {
    let a = Animation::new(120);
    assert_eq!(a.play(777), a.play(777));
}

#[test]
fn presenter_shows_draws_and_hides() {
    let c = Config::new();
    let mut p = Presenter::new(&c, 200, 0);
    let act = p.tick(VelocityEvent::new(2000, 0), 100_000);
    assert!(act.visible);
    assert_eq!(act.sleep_micros, 8_000);
    let expected = Animation::new(200).play(500);
    assert_eq!(act.redraw, Some(expected));
    assert_eq!(expected.frame_index, 50);
    assert_eq!(p.last_render, 100_000);
    // Too soon for another frame.
    let act = p.tick(VelocityEvent::new(2000, 100_000), 110_000);
    assert!(act.visible);
    assert_eq!(act.redraw, None);
    // The published speed has gone stale: no motion.
    let act = p.tick(VelocityEvent::new(2000, 100_000), 400_000);
    assert!(!act.visible);
    assert_eq!(act.redraw, None);
    assert_eq!(act.sleep_micros, 50_000);
    assert_eq!(p.controller.state, Visibility::Hidden);
}

#[test]
fn placement_centres_and_moves_once() {
    let mut p = Placement::new(200);
    assert_eq!(p.center_on(Position32::new(500, 300)), Some(Position32::new(400, 200)));
    assert_eq!(p.position, Position32::new(400, 200));
    assert_eq!(p.center_on(Position32::new(500, 300)), None);
    assert_eq!(p.center_on(Position32::new(i32::MIN, 0)), None);
    assert_eq!(p.position, Position32::new(400, 200));
}

#[test]
fn capture_keeps_order() {
    let mut c = Capture::new();
    assert!(c.events().is_empty());
    c.push(LogEvent::Velocity { velocity: 5, time: 1 });
    c.push(LogEvent::PointerInput { x: 1, y: 2, time: 2 });
    assert_eq!(
        c.events(),
        &vec![
            LogEvent::Velocity { velocity: 5, time: 1 },
            LogEvent::PointerInput { x: 1, y: 2, time: 2 }
        ]
    );
}

#[test]
fn emitter_drops_after_window() {
    let (tx, rx) = std::sync::mpsc::channel();
    let e = CaptureEmitter::new(1_000, 5_000_000, tx);
    let ev = LogEvent::Device { time: 2_000, event_type: 3, code: 0, value: 17 };
    assert!(e.is_open(5_001_000));
    assert_eq!(e.emit(ev, 2_000), EmitOutcome::Sent);
    assert_eq!(rx.try_recv(), Ok(ev));
    assert!(!e.is_open(5_001_001));
    assert_eq!(e.emit(ev, 5_001_001), EmitOutcome::Dropped);
    assert!(rx.try_recv().is_err());
    let d = e.duplicate();
    assert_eq!(d.emit(ev, 3_000), EmitOutcome::Sent);
    assert_eq!(rx.try_recv(), Ok(ev));
    drop(rx);
    assert_eq!(e.emit(ev, 3_000), EmitOutcome::Disconnected);
    assert_eq!(e.emit(ev, 5_001_001), EmitOutcome::Dropped);
}

#[test]
fn accept_passes_event_only_inside_window() {
    let (tx, _rx) = std::sync::mpsc::channel();
    let e = CaptureEmitter::new(1_000, 500, tx);
    let ev = LogEvent::Velocity { velocity: 9, time: 1_200 };
    assert_eq!(e.accept(ev, 0), Some(ev));
    assert_eq!(e.accept(ev, 1_500), Some(ev));
    assert_eq!(e.accept(ev, 1_501), None);
}

#[test]
fn chain_threads_context() {
    let base: i32 = 10;
    let r = base.chain(3).chain_callx(|c: &i32, v: i32| *c + v).chain_resultx(|v: i32| v * 2).result();
    assert_eq!(r, 26);
    let r = base.chain(4).chain_mapx(|v: i32| v + 1);
    assert_eq!(r, 5);
    let r = base.chain(4).chain_end(|c: &i32, v: i32| *c - v);
    assert_eq!(r, 6);
    let c = ChainContext::new(7u8, "x");
    assert_eq!(c.chain_resultx(|s: &str| s.len()).result(), 1);
}
